//! The laws of the ledger, each proved against the state transitions the
//! executable operations are specified by.

use crate::constants::MAX_STAKE;
use crate::error::CustomError;
use crate::event::StakeEvent;
use crate::identity::{owner_allows, Identity};
use crate::initialize::{spec_initialize, Initialize};
use crate::stake::{spec_deposit, spec_withdraw, Stake};
use crate::state::stake_wf;
use vstd::prelude::*;

verus! {

/// Law: a deposit never raises a record's balance above `MAX_STAKE`, so the
/// cap holds across any number of deposits; and a deposit that fails any
/// check, the cap included, leaves every record and balance unchanged.
pub proof fn lemma_deposit_respects_cap(ctx: Stake, amount: u64)
    requires
        stake_wf(ctx.user_stake),
    ensures
        ({
            let (ctx2, r) = spec_deposit(ctx, amount);
            &&& stake_wf(ctx2.user_stake)
            &&& (r is Err ==> ctx2 == ctx)
            &&& (ctx.user_stake.amount + amount > MAX_STAKE ==> r is Err)
        }),
{
}

/// Law: a withdrawal never touches the record's logical balance, its
/// ownership tag, or the global configuration record — it moves native
/// currency only — so the cap invariant survives every withdrawal.
pub proof fn lemma_withdraw_preserves_record(ctx: Stake, amount: u64)
    ensures
        ({
            let (ctx2, r) = spec_withdraw(ctx, amount);
            &&& ctx2.user_stake == ctx.user_stake
            &&& ctx2.global_state == ctx.global_state
            &&& (stake_wf(ctx.user_stake) ==> stake_wf(ctx2.user_stake))
        }),
{
}

/// Law: sequential deposits combine. Depositing `a` and then `b` ends in
/// the same state as depositing `a + b` at once, whenever the caller may use
/// the record, the combined amount respects the cap, and the two balances it
/// moves between stay in the 64-bit range.
pub proof fn lemma_deposits_combine(ctx: Stake, a: u64, b: u64)
    requires
        a > 0,
        b > 0,
        ctx.global_state.initialized,
        owner_allows(ctx.user_stake.staker, ctx.staker),
        ctx.user_stake.amount + a + b <= MAX_STAKE,
        a + b <= ctx.staker_lamports,
        ctx.user_stake_lamports + a + b <= u64::MAX,
    ensures
        ({
            let (ctx1, r1) = spec_deposit(ctx, a);
            let (ctx2, r2) = spec_deposit(ctx1, b);
            let (ctx3, r3) = spec_deposit(ctx, (a + b) as u64);
            &&& r1 is Ok
            &&& r2 is Ok
            &&& r3 is Ok
            &&& ctx2 == ctx3
        }),
{
}

/// Law: initialization happens at most once. Whatever a first call did, a
/// second call on the record it left behind, by any signer and with any
/// token, fails with `AlreadyInitialized` and changes nothing; and the
/// administrator and token recorded by a successful first call are exactly
/// the first caller and its token.
pub proof fn lemma_second_initialize_rejected(
    ctx: Initialize,
    mint1: Identity,
    signer2: Identity,
    mint2: Identity,
)
    ensures
        ({
            let (ctx1, r1) = spec_initialize(ctx, mint1);
            let second = Initialize { signer: signer2, global_state: ctx1.global_state };
            let (ctx2, r2) = spec_initialize(second, mint2);
            r1 is Ok ==> {
                &&& ctx1.global_state.initialized
                &&& ctx1.global_state.authority == ctx.signer
                &&& ctx1.global_state.mint == mint1
                &&& r2 == Err::<(), CustomError>(CustomError::AlreadyInitialized)
                &&& ctx2 == second
            }
        }),
{
}

/// Law: nothing moves before initialization. While the global configuration
/// record is not initialized, every deposit and every withdrawal fails with
/// `NotInitialized` and changes nothing.
pub proof fn lemma_nothing_before_initialize(ctx: Stake, amount: u64)
    requires
        !ctx.global_state.initialized,
    ensures
        spec_deposit(ctx, amount) == (ctx, Err::<StakeEvent, CustomError>(
            CustomError::NotInitialized,
        )),
        spec_withdraw(ctx, amount) == (ctx, Err::<(), CustomError>(CustomError::NotInitialized)),
{
}

/// Law: withdrawal is gated on ownership. Any positive withdrawal from a
/// record nobody ever claimed — that is, by a caller who never deposited —
/// fails with `AttemptedWithdrawBeforeStake`, and a withdrawal within the
/// balance of a record claimed by someone other than the caller fails with
/// `NotStakeOwner`; neither changes anything.
pub proof fn lemma_withdraw_access_control(ctx: Stake, amount: u64)
    requires
        ctx.global_state.initialized,
        amount > 0,
    ensures
        ({
            let (ctx2, r) = spec_withdraw(ctx, amount);
            &&& (ctx.user_stake.staker is Unclaimed ==> r == Err::<(), CustomError>(
                CustomError::AttemptedWithdrawBeforeStake,
            ) && ctx2 == ctx)
            &&& (amount <= ctx.user_stake.amount && !owner_allows(ctx.user_stake.staker, ctx.staker)
                ==> r == Err::<(), CustomError>(CustomError::NotStakeOwner) && ctx2 == ctx)
        }),
{
}

} // verus!
