//! A custodial escrow auction and royalty-splitting settlement engine for a
//! unique tokenized asset on a shared ledger.
//!
//! The library holds the verified core: the auction state machine, the royalty
//! split engine, the settlement planner and the custody plan they emit. Every
//! operation validates its inputs, computes the next state and the exact
//! sequence of custody moves, and returns a typed error otherwise. The ledger
//! itself (token transfers, account creation and closing) is an external
//! collaborator: callers execute the returned plans against it.

pub mod ids;
pub mod errors;
pub mod custody;
pub mod auction;
pub mod royalty;
pub mod settlement;
pub mod pda;
pub mod track;
