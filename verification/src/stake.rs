//! Deposits into and withdrawals from a participant's stake record.

use crate::constants::MAX_STAKE;
use crate::error::CustomError;
use crate::event::StakeEvent;
use crate::identity::{owner_allows, Identity, StakeOwner};
use crate::state::{GlobalState, UserStake};
use vstd::prelude::*;

verus! {

/// The records a deposit or withdrawal touches: the authenticated caller
/// with its liquid native-currency balance, the global configuration record
/// (read only), and the caller's stake record at its derived address
/// together with the native currency backing it. Declaring them up front is
/// what lets the surrounding scheduler serialize conflicting invocations.
#[derive(Clone, Copy, Debug, PartialEq, Eq, Structural)]
pub struct Stake {
    /// The authenticated caller.
    pub staker: Identity,
    /// The caller's liquid native-currency balance.
    pub staker_lamports: u64,
    /// The singleton global configuration record; never mutated here.
    pub global_state: GlobalState,
    /// The stake record at the address derived from the caller's identity.
    pub user_stake: UserStake,
    /// The backing value: the native currency held at the stake record's
    /// storage location.
    pub user_stake_lamports: u64,
}

/// All the checks a deposit makes, in one predicate: the program is
/// initialized, the amount is positive, the cap is respected, the caller may
/// claim or already owns the record, the caller can fund the transfer, and
/// the backing value does not wrap around.
pub open spec fn deposit_allowed(ctx: Stake, amount: u64) -> bool {
    &&& ctx.global_state.initialized
    &&& amount > 0
    &&& ctx.user_stake.amount + amount <= MAX_STAKE
    &&& owner_allows(ctx.user_stake.staker, ctx.staker)
    &&& amount <= ctx.staker_lamports
    &&& ctx.user_stake_lamports + amount <= u64::MAX
}

/// The state transition of a deposit. The checks run in a fixed order and
/// each failure names its own error; nothing is mutated unless every check
/// passes, and then the transfer and the balance update apply together.
pub open spec fn spec_deposit(ctx: Stake, amount: u64) -> (Stake, Result<
    StakeEvent,
    CustomError,
>) {
    if !ctx.global_state.initialized {
        (ctx, Err(CustomError::NotInitialized))
    } else if amount == 0 {
        (ctx, Err(CustomError::InvalidAmount))
    } else if ctx.user_stake.amount + amount > u64::MAX {
        (ctx, Err(CustomError::CalculationOverflow))
    } else if ctx.user_stake.amount + amount > MAX_STAKE {
        (ctx, Err(CustomError::MaxStakeExceeded))
    } else if !owner_allows(ctx.user_stake.staker, ctx.staker) {
        (ctx, Err(CustomError::NotStakeOwner))
    } else if ctx.staker_lamports < amount {
        (ctx, Err(CustomError::InsufficientFunds))
    } else if ctx.user_stake_lamports + amount > u64::MAX {
        (ctx, Err(CustomError::CalculationOverflow))
    } else {
        // A first deposit claims the record: the owner is bound to the
        // caller and the balance starts from zero.
        let total = if ctx.user_stake.staker is Unclaimed {
            amount
        } else {
            (ctx.user_stake.amount + amount) as u64
        };
        (
            Stake {
                staker: ctx.staker,
                staker_lamports: (ctx.staker_lamports - amount) as u64,
                global_state: ctx.global_state,
                user_stake: UserStake { staker: StakeOwner::ClaimedBy(ctx.staker), amount: total },
                user_stake_lamports: (ctx.user_stake_lamports + amount) as u64,
            },
            Ok(StakeEvent { staker: ctx.staker, amount, total_staked: total }),
        )
    }
}

/// Deposits `amount` into the caller's stake record: moves `amount` of
/// native currency from the caller's liquid balance into the record's
/// backing value and raises the record's balance by the same amount,
/// claiming the record for the caller if nobody owns it yet. Fails, mutating
/// nothing, when the program is not initialized, the amount is zero, the cap
/// or the 64-bit range would be exceeded, the record belongs to someone
/// else, or the caller cannot fund the transfer.
pub fn deposit_sol(ctx: &mut Stake, amount: u64) -> (r: Result<StakeEvent, CustomError>)
    ensures
        (*final(ctx), r) == spec_deposit(*old(ctx), amount),
        r is Ok <==> deposit_allowed(*old(ctx), amount),
        r is Err ==> *final(ctx) == *old(ctx),
{
    if !ctx.global_state.initialized {
        return Err(CustomError::NotInitialized);
    }
    if amount == 0 {
        return Err(CustomError::InvalidAmount);
    }
    let new_total = match ctx.user_stake.amount.checked_add(amount) {
        Some(t) => t,
        None => {
            return Err(CustomError::CalculationOverflow);
        },
    };
    if new_total > MAX_STAKE {
        return Err(CustomError::MaxStakeExceeded);
    }
    let claimed = match ctx.user_stake.staker {
        StakeOwner::Unclaimed => false,
        StakeOwner::ClaimedBy(o) => {
            if o != ctx.staker {
                return Err(CustomError::NotStakeOwner);
            }
            true
        },
    };
    // The value transfer is atomic: both sides are checked before either
    // balance, or the ownership tag, is touched.
    let debited = match ctx.staker_lamports.checked_sub(amount) {
        Some(d) => d,
        None => {
            return Err(CustomError::InsufficientFunds);
        },
    };
    let credited = match ctx.user_stake_lamports.checked_add(amount) {
        Some(c) => c,
        None => {
            return Err(CustomError::CalculationOverflow);
        },
    };
    let total = if claimed {
        new_total
    } else {
        amount
    };
    ctx.user_stake.staker = StakeOwner::ClaimedBy(ctx.staker);
    ctx.user_stake.amount = total;
    ctx.staker_lamports = debited;
    ctx.user_stake_lamports = credited;
    Ok(StakeEvent { staker: ctx.staker, amount, total_staked: total })
}

/// All the checks a withdrawal makes, in one predicate: the program is
/// initialized, the amount is positive and within the record's balance, the
/// caller owns the record, the backing value covers the withdrawal, and the
/// caller's liquid balance does not wrap around.
pub open spec fn withdraw_allowed(ctx: Stake, amount: u64) -> bool {
    &&& ctx.global_state.initialized
    &&& 0 < amount <= ctx.user_stake.amount
    &&& ctx.user_stake.staker == StakeOwner::ClaimedBy(ctx.staker)
    &&& amount <= ctx.user_stake_lamports
    &&& ctx.staker_lamports + amount <= u64::MAX
}

/// The state transition of a withdrawal. The checks run in a fixed order
/// and each failure names its own error: a caller whose record was never
/// claimed is turned away before the amount is held against the balance,
/// so a caller who never deposited always learns so. On success the
/// backing value of the record goes down by `amount` and the caller's
/// liquid balance goes up by `amount`. The record's logical balance field
/// stays where it is: a withdrawal debits the backing value only.
pub open spec fn spec_withdraw(ctx: Stake, amount: u64) -> (Stake, Result<(), CustomError>) {
    if !ctx.global_state.initialized {
        (ctx, Err(CustomError::NotInitialized))
    } else if amount == 0 {
        (ctx, Err(CustomError::InvalidAmount))
    } else if ctx.user_stake.staker is Unclaimed {
        (ctx, Err(CustomError::AttemptedWithdrawBeforeStake))
    } else if amount > ctx.user_stake.amount {
        (ctx, Err(CustomError::InvalidAmount))
    } else if !owner_allows(ctx.user_stake.staker, ctx.staker) {
        (ctx, Err(CustomError::NotStakeOwner))
    } else if ctx.user_stake_lamports < amount {
        (ctx, Err(CustomError::InsufficientFunds))
    } else if ctx.staker_lamports + amount > u64::MAX {
        (ctx, Err(CustomError::CalculationOverflow))
    } else {
        (
            Stake {
                staker: ctx.staker,
                staker_lamports: (ctx.staker_lamports + amount) as u64,
                global_state: ctx.global_state,
                user_stake: ctx.user_stake,
                user_stake_lamports: (ctx.user_stake_lamports - amount) as u64,
            },
            Ok(()),
        )
    }
}

/// Withdraws `amount` from the caller's stake record: debits the record's
/// backing value and credits the caller's liquid balance, both
/// overflow-checked, and leaves the record's logical balance field as it
/// was. Fails, mutating nothing, when the program is not initialized, the
/// amount is zero, the record was never deposited into, the amount is above
/// the record's balance, the record belongs to someone else, its backing
/// value is short, or the credit would wrap around.
pub fn withdraw_sol(ctx: &mut Stake, amount: u64) -> (r: Result<(), CustomError>)
    ensures
        (*final(ctx), r) == spec_withdraw(*old(ctx), amount),
        r is Ok <==> withdraw_allowed(*old(ctx), amount),
        r is Err ==> *final(ctx) == *old(ctx),
{
    if !ctx.global_state.initialized {
        return Err(CustomError::NotInitialized);
    }
    if amount == 0 {
        return Err(CustomError::InvalidAmount);
    }
    match ctx.user_stake.staker {
        StakeOwner::Unclaimed => {
            return Err(CustomError::AttemptedWithdrawBeforeStake);
        },
        StakeOwner::ClaimedBy(o) => {
            if amount > ctx.user_stake.amount {
                return Err(CustomError::InvalidAmount);
            }
            if o != ctx.staker {
                return Err(CustomError::NotStakeOwner);
            }
        },
    }
    // The value transfer is atomic: both sides are checked before either
    // balance is touched.
    let debited = match ctx.user_stake_lamports.checked_sub(amount) {
        Some(d) => d,
        None => {
            return Err(CustomError::InsufficientFunds);
        },
    };
    let credited = match ctx.staker_lamports.checked_add(amount) {
        Some(c) => c,
        None => {
            return Err(CustomError::CalculationOverflow);
        },
    };
    ctx.user_stake_lamports = debited;
    ctx.staker_lamports = credited;
    Ok(())
}

} // verus!
