//! Ledger identities and holding-record views.
//!
//! Every account, mint or program on the ledger is addressed by a 32-byte
//! identity. The engine never inspects the bytes beyond comparing them, so the
//! identity is held as a plain byte array.

use vstd::prelude::*;

verus! {

/// A 32-byte ledger address: an account, a mint, a wallet or a program.
#[derive(Clone, Copy, Debug)]
pub struct AccountId(pub [u8; 32]);

impl PartialEq for AccountId {
    fn eq(&self, other: &Self) -> (r: bool) {
        let mut i: usize = 0;
        while i < 32
            invariant
                0 <= i <= 32,
                forall|j: int| 0 <= j < i ==> self.0@[j] == other.0@[j],
            decreases 32 - i,
        {
            if self.0[i] != other.0[i] {
                return false;
            }
            i += 1;
        }
        proof {
            broadcast use vstd::array::group_array_axioms;

            assert(self.0 =~= other.0);
        }
        true
    }
}

impl vstd::std_specs::cmp::PartialEqSpecImpl for AccountId {
    open spec fn obeys_eq_spec() -> bool {
        true
    }

    open spec fn eq_spec(&self, other: &AccountId) -> bool {
        self.0 == other.0
    }
}

/// A view of a ledger holding record: the tracked account that contains units
/// of an asset or of fungible funds. Only the fields the engine reads are
/// modelled.
#[derive(Clone, Copy, Debug)]
pub struct TokenHolding {
    /// The address of the holding record itself.
    pub address: AccountId,
    /// The asset type the record holds units of.
    pub mint: AccountId,
    /// The identity allowed to move the held units.
    pub owner: AccountId,
    /// How many units the record holds.
    pub amount: u64,
    /// Whether the record is frozen and its units cannot move.
    pub frozen: bool,
}

} // verus!
