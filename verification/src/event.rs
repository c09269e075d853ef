//! Informational events emitted by successful operations. They exist for
//! observability collaborators only; the ledger never reads them back.

use crate::identity::Identity;
use vstd::prelude::*;

verus! {

/// Emitted once, by a successful initialization.
#[derive(Debug)]
pub struct InitializeEvent {
    pub message: String,
    pub signer: Identity,
    pub mint: Identity,
}

/// Emitted by every successful deposit.
#[derive(Clone, Copy, Debug, PartialEq, Eq, Structural)]
pub struct StakeEvent {
    pub staker: Identity,
    pub amount: u64,
    pub total_staked: u64,
}

/// The message carried by the initialization event.
pub open spec fn init_message() -> Seq<char> {
    "Initialized global state"@
}

} // verus!
