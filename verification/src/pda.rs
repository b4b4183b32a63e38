//! Program-derived addresses.
//!
//! Auction and royalty records, and the shared escrow custodian, live at
//! addresses derived deterministically from a fixed seed plus the relevant
//! identity, so every caller can re-derive the same address independently.
//! The derivation itself (a hash-based search over bump seeds) is the
//! ledger platform's; it enters the library through one trusted wrapper.

use vstd::prelude::*;
use vstd::string::StringSliceAdditionalSpecFns;
use crate::ids::AccountId;
use crate::custody::Custodian;

verus! {

/// What the platform's address derivation returns for the seed list
/// `[tag] + keys` under `program`: a function of those arguments alone.
pub uninterp spec fn pda_of(tag: Seq<u8>, keys: Seq<AccountId>, program: AccountId) -> Option<
    (AccountId, u8),
>;

/// Relies on `Pubkey::try_find_program_address` of solana-address
/// (re-exported through anchor_lang): it derives an address and a bump from
/// the seed bytes and the program id alone, by a deterministic SHA-256-based
/// search, and returns `None` in the statistically improbable event that no
/// bump yields a valid address or where a seed exceeds the length limits.
#[verifier::external_body]
fn find_program_address(tag: &[u8], keys: &Vec<AccountId>, program: &AccountId) -> (r: Option<
    (AccountId, u8),
>)
    ensures
        r == pda_of(tag@, keys@, *program),
{
    let program_key = anchor_lang::solana_program::pubkey::Pubkey::new_from_array(program.0);
    let mut seeds: Vec<&[u8]> = Vec::with_capacity(keys.len() + 1);
    seeds.push(tag);
    for key in keys.iter() {
        seeds.push(&key.0);
    }
    anchor_lang::solana_program::pubkey::Pubkey::try_find_program_address(&seeds, &program_key)
        .map(|(address, bump)| (AccountId(address.to_bytes()), bump))
}

/// What base58 decoding yields for a character sequence: a function of the
/// characters alone, or nothing where they do not spell a 32-byte address.
pub uninterp spec fn key_of_base58(s: Seq<char>) -> Option<AccountId>;

/// Relies on `Pubkey::from_str` of solana-address (re-exported through
/// anchor_lang): base58-decodes a string into a 32-byte address, depending
/// on the characters alone, and fails exactly where they are not a
/// well-formed address.
#[verifier::external_body]
pub(crate) fn parse_base58_key(s: &str) -> (r: Option<AccountId>)
    ensures
        r == key_of_base58(s@),
{
    match <anchor_lang::solana_program::pubkey::Pubkey as core::str::FromStr>::from_str(s) {
        Ok(address) => Some(AccountId(address.to_bytes())),
        Err(_) => None,
    }
}

/// The address of the royalty configuration record of `mint` under this
/// program, with its bump; `None` only in the improbable bump-less case.
pub fn find_royalty_config_pda(program_id: &AccountId, mint: &AccountId) -> (r: Option<
    (AccountId, u8),
>)
    ensures
        r == pda_of("royalty_config".spec_bytes(), seq![*mint], *program_id),
{
    let keys: Vec<AccountId> = vec![*mint];
    proof {
        assert(keys@ =~= seq![*mint]);
    }
    find_program_address("royalty_config".as_bytes(), &keys, program_id)
}

/// The single program-derived escrow custodian that every auction shares,
/// derived from the fixed escrow seed alone.
pub fn derive_custodian(program_id: &AccountId) -> (r: Option<Custodian>)
    ensures
        match pda_of("escrow".spec_bytes(), Seq::<AccountId>::empty(), *program_id) {
            Some((authority, bump)) => r == Some(Custodian { authority, bump }),
            None => r is None,
        },
{
    let keys: Vec<AccountId> = Vec::new();
    proof {
        assert(keys@ =~= Seq::<AccountId>::empty());
    }
    match find_program_address("escrow".as_bytes(), &keys, program_id) {
        Some((authority, bump)) => Some(Custodian { authority, bump }),
        None => None,
    }
}

/// The metadata record address the external metadata oracle keeps for
/// `mint`, derived under the metadata program itself.
pub fn find_metadata_pda(metadata_program: &AccountId, mint: &AccountId) -> (r: Option<
    (AccountId, u8),
>)
    ensures
        r == pda_of(
            "metadata".spec_bytes(),
            seq![*metadata_program, *mint],
            *metadata_program,
        ),
{
    let keys: Vec<AccountId> = vec![*metadata_program, *mint];
    proof {
        assert(keys@ =~= seq![*metadata_program, *mint]);
    }
    find_program_address("metadata".as_bytes(), &keys, metadata_program)
}

} // verus!
