//! The custody plan: the ledger moves an operation commits to.
//!
//! The engine never touches the ledger itself. Each operation validates its
//! inputs and returns the exact ordered sequence of custody moves to execute;
//! the ledger runs the whole sequence atomically per invocation. All
//! custodian-authorized moves are signed by one program-derived custodian,
//! shared by every auction.

use vstd::prelude::*;
use crate::ids::AccountId;

verus! {

/// The program-derived authority that holds escrowed assets and funds. It is
/// constructed once from a fixed identity derivation and passed by reference
/// to every custody operation; it has no human owner.
#[derive(Clone, Copy, Debug)]
pub struct Custodian {
    /// The derived authority address.
    pub authority: AccountId,
    /// The bump that made the derivation valid, kept for signing.
    pub bump: u8,
}

/// One primitive ledger move. A plan is an ordered sequence of these.
#[derive(Clone, Copy, Debug, PartialEq)]
pub enum CustodyOp {
    /// Hand authority over a holding record to `new_authority`.
    DelegateAuthority { holding: AccountId, new_authority: AccountId },
    /// Move `amount` units from `source` into `temp_holding`, authorized by
    /// the depositor.
    Deposit { source: AccountId, temp_holding: AccountId, amount: u64 },
    /// Move `amount` units out of custody, from `temp_holding` to
    /// `destination`, signed by the custodian.
    Release { temp_holding: AccountId, destination: AccountId, amount: u64 },
    /// Close an emptied holding record, returning its rent to `destination`,
    /// signed by the custodian.
    CloseHolding { temp_holding: AccountId, destination: AccountId },
}

/// Escrow an amount: delegate the temporary holding to the custodian, then
/// move `amount` units into it from the depositor's source holding.
pub fn delegate_and_deposit(
    source: AccountId,
    temp_holding: AccountId,
    custodian: &Custodian,
    amount: u64,
) -> (ops: Vec<CustodyOp>)
    ensures
        ops@ == seq![
            (CustodyOp::DelegateAuthority { holding: temp_holding, new_authority: custodian.authority }),
            (CustodyOp::Deposit { source, temp_holding, amount }),
        ],
{
    let mut ops: Vec<CustodyOp> = Vec::new();
    ops.push(CustodyOp::DelegateAuthority { holding: temp_holding, new_authority: custodian.authority });
    ops.push(CustodyOp::Deposit { source, temp_holding, amount });
    ops
}

/// Pay an amount out of custody.
pub fn release(
    temp_holding: AccountId,
    destination: AccountId,
    amount: u64,
) -> (op: CustodyOp)
    ensures
        op == (CustodyOp::Release { temp_holding, destination, amount }),
{
    CustodyOp::Release { temp_holding, destination, amount }
}

/// Close a temporary holding once it is empty.
pub fn close_holding(
    temp_holding: AccountId,
    destination: AccountId,
) -> (op: CustodyOp)
    ensures
        op == (CustodyOp::CloseHolding { temp_holding, destination }),
{
    CustodyOp::CloseHolding { temp_holding, destination }
}

} // verus!
