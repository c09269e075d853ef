//! The persisted records of the ledger: the singleton global configuration
//! record and the per-participant stake records.

use crate::constants::MAX_STAKE;
use crate::identity::{Identity, StakeOwner};
use vstd::prelude::*;

verus! {

/// The singleton global configuration record. Its lifecycle is
/// uninitialized, then initialized, which is terminal: once `initialized`
/// is true it is never reset, and `mint` and `authority` never change again.
#[derive(Clone, Copy, Debug, PartialEq, Eq, Structural)]
pub struct GlobalState {
    /// Becomes true exactly once; guards re-initialization.
    pub initialized: bool,
    /// The one token this deployment accepts.
    pub mint: Identity,
    /// The caller that performed the initialization.
    pub authority: Identity,
}

/// A freshly allocated global configuration record: not yet initialized,
/// with zeroed identities.
pub open spec fn spec_default_global() -> GlobalState {
    GlobalState {
        initialized: false,
        mint: Identity { hi: 0, lo: 0 },
        authority: Identity { hi: 0, lo: 0 },
    }
}

impl Default for GlobalState {
    fn default() -> (g: GlobalState)
        ensures
            g == spec_default_global(),
    {
        GlobalState {
            initialized: false,
            mint: Identity { hi: 0, lo: 0 },
            authority: Identity { hi: 0, lo: 0 },
        }
    }
}

/// A per-participant stake record: the owner the record is bound to and the
/// balance staked so far.
#[derive(Clone, Copy, Debug, PartialEq, Eq, Structural)]
pub struct UserStake {
    /// Bound on the first deposit and immutable from then on.
    pub staker: StakeOwner,
    /// The staked balance, in the smallest native-currency unit.
    pub amount: u64,
}

/// A freshly allocated stake record: unclaimed, with no balance.
pub open spec fn spec_default_stake() -> UserStake {
    UserStake { staker: StakeOwner::Unclaimed, amount: 0 }
}

impl Default for UserStake {
    fn default() -> (s: UserStake)
        ensures
            s == spec_default_stake(),
    {
        UserStake { staker: StakeOwner::Unclaimed, amount: 0 }
    }
}

/// Well-formedness of a stake record, established when a record is
/// allocated and preserved by every operation: the balance never exceeds
/// the global cap.
pub open spec fn stake_wf(s: UserStake) -> bool {
    s.amount <= MAX_STAKE
}

} // verus!
