//! A minimal verified staking ledger: a single administrator activates the
//! program for one token, after which any participant may deposit and
//! withdraw a native-currency stake into a personal, address-derived record,
//! subject to a global cap and strict access control.
//!
//! The library is the ledger state machine itself: the rules for creating
//! the global configuration record, for creating and mutating per-participant
//! stake records, the deterministic addressing scheme that binds a record to
//! its owner, and the overflow-safe balance arithmetic. The host that loads
//! records, authenticates callers and moves the native currency is a
//! collaborator outside this crate; the operations here take the records an
//! invocation touches as explicit arguments and either apply their whole
//! state transition or fail without mutating anything.

pub mod address;
pub mod constants;
pub mod error;
pub mod event;
pub mod identity;
pub mod initialize;
pub mod laws;
pub mod ledger;
pub mod stake;
pub mod state;

use crate::error::CustomError;
use crate::event::{init_message, InitializeEvent, StakeEvent};
use crate::identity::Identity;
use crate::initialize::{check, initialize_global_state, spec_initialize_checked, Initialize};
use crate::stake::{deposit_sol, spec_deposit, spec_withdraw, withdraw_sol, Stake};
use vstd::prelude::*;

verus! {

/// The externally invoked initialization: the administrator gate runs first
/// and produces `NotOwner` without touching state; then the global
/// configuration record is created exactly as `initialize_global_state`
/// says.
pub fn initialize(ctx: &mut Initialize, mint: Identity) -> (r: Result<
    InitializeEvent,
    CustomError,
>)
    ensures
        *final(ctx) == spec_initialize_checked(*old(ctx), mint).0,
        (match r {
            Ok(ev) => spec_initialize_checked(*old(ctx), mint).1 is Ok && ev.signer == old(
                ctx,
            ).signer && ev.mint == mint && ev.message@ == init_message(),
            Err(e) => spec_initialize_checked(*old(ctx), mint).1 == Err::<(), CustomError>(e),
        }),
        r is Err ==> *final(ctx) == *old(ctx),
{
    if let Err(e) = check(ctx) {
        return Err(e);
    }
    initialize_global_state(ctx, mint)
}

/// The externally invoked deposit; any caller, operating on the caller's
/// own record.
pub fn stake(ctx: &mut Stake, amount: u64) -> (r: Result<StakeEvent, CustomError>)
    ensures
        (*final(ctx), r) == spec_deposit(*old(ctx), amount),
{
    deposit_sol(ctx, amount)
}

/// The externally invoked withdrawal; any caller, operating on the caller's
/// own record.
pub fn unstake(ctx: &mut Stake, amount: u64) -> (r: Result<(), CustomError>)
    ensures
        (*final(ctx), r) == spec_withdraw(*old(ctx), amount),
{
    withdraw_sol(ctx, amount)
}

} // verus!
