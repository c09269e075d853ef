use token_vesting_app::constants::{owner, MAX_STAKE};
use token_vesting_app::error::CustomError;
use token_vesting_app::event::StakeEvent;
use token_vesting_app::identity::{Identity, StakeOwner};
use token_vesting_app::initialize::Initialize;
use token_vesting_app::stake::{deposit_sol, withdraw_sol, Stake};
use token_vesting_app::state::{GlobalState, UserStake};

fn initialized_global() -> GlobalState {
    let mut ctx = Initialize {
        signer: owner(),
        global_state: GlobalState::default(),
    };
    token_vesting_app::initialize(&mut ctx, Identity { hi: 7, lo: 77 }).unwrap();
    ctx.global_state
}

fn participant_b() -> Identity {
    Identity { hi: 11, lo: 11 }
}

fn participant_c() -> Identity {
    Identity { hi: 12, lo: 12 }
}

fn fresh_stake_ctx(caller: Identity, wallet: u64) -> Stake {
    Stake {
        staker: caller,
        staker_lamports: wallet,
        global_state: initialized_global(),
        user_stake: UserStake::default(),
        user_stake_lamports: 0,
    }
}

#[test]
fn scenario_initialize_deposit_cap_withdraw() {
    // Administrator A initializes with token T.
    let global = initialized_global();
    assert!(global.initialized);

    // Owner B deposits 500_000_000 into a fresh record.
    let b = participant_b();
    let mut ctx = Stake {
        staker: b,
        staker_lamports: 2_000_000_000,
        global_state: global,
        user_stake: UserStake::default(),
        user_stake_lamports: 0,
    };
    let ev = token_vesting_app::stake(&mut ctx, 500_000_000).unwrap();
    assert_eq!(ctx.user_stake.staker, StakeOwner::ClaimedBy(b));
    assert_eq!(ctx.user_stake.amount, 500_000_000);
    assert_eq!(ctx.user_stake_lamports, 500_000_000);
    assert_eq!(ctx.staker_lamports, 1_500_000_000);
    assert_eq!(
        ev,
        StakeEvent { staker: b, amount: 500_000_000, total_staked: 500_000_000 }
    );

    // A further 600_000_000 would pass the 1_000_000_000 cap: rejected,
    // nothing changes.
    let before = ctx;
    let r = token_vesting_app::stake(&mut ctx, 600_000_000);
    assert!(matches!(r, Err(CustomError::MaxStakeExceeded)));
    assert_eq!(ctx, before);
    assert_eq!(ctx.user_stake.amount, 500_000_000);

    // B withdraws 200_000_000: the liquid balance gains it, the backing
    // value loses it, and the logical balance field stays untouched.
    token_vesting_app::unstake(&mut ctx, 200_000_000).unwrap();
    assert_eq!(ctx.staker_lamports, 1_700_000_000);
    assert_eq!(ctx.user_stake_lamports, 300_000_000);
    assert_eq!(ctx.user_stake.amount, 500_000_000);

    // Owner C never deposited: the withdrawal is turned away on ownership.
    let mut c_ctx = fresh_stake_ctx(participant_c(), 10);
    let r = token_vesting_app::unstake(&mut c_ctx, 1);
    assert!(matches!(r, Err(CustomError::AttemptedWithdrawBeforeStake)));
}

#[test]
fn deposit_before_initialize_fails() {
    let mut ctx = Stake {
        staker: participant_b(),
        staker_lamports: 100,
        global_state: GlobalState::default(),
        user_stake: UserStake::default(),
        user_stake_lamports: 0,
    };
    let before = ctx;
    let r = deposit_sol(&mut ctx, 5);
    assert!(matches!(r, Err(CustomError::NotInitialized)));
    assert_eq!(ctx, before);
}

#[test]
fn withdraw_before_initialize_fails() {
    let mut ctx = Stake {
        staker: participant_b(),
        staker_lamports: 100,
        global_state: GlobalState::default(),
        user_stake: UserStake { staker: StakeOwner::ClaimedBy(participant_b()), amount: 50 },
        user_stake_lamports: 50,
    };
    let before = ctx;
    let r = withdraw_sol(&mut ctx, 5);
    assert!(matches!(r, Err(CustomError::NotInitialized)));
    assert_eq!(ctx, before);
}

#[test]
fn deposit_of_zero_is_rejected() {
    let mut ctx = fresh_stake_ctx(participant_b(), 100);
    let r = deposit_sol(&mut ctx, 0);
    assert!(matches!(r, Err(CustomError::InvalidAmount)));
    assert_eq!(ctx.user_stake, UserStake::default());
}

#[test]
fn deposit_overflow_is_detected_before_the_cap() {
    let mut ctx = fresh_stake_ctx(participant_b(), 100);
    ctx.user_stake = UserStake {
        staker: StakeOwner::ClaimedBy(participant_b()),
        amount: u64::MAX,
    };
    let r = deposit_sol(&mut ctx, 1);
    assert!(matches!(r, Err(CustomError::CalculationOverflow)));
    assert_eq!(ctx.user_stake.amount, u64::MAX);
}

#[test]
fn deposit_into_someone_elses_record_is_rejected() {
    let mut ctx = fresh_stake_ctx(participant_c(), 100);
    ctx.user_stake = UserStake {
        staker: StakeOwner::ClaimedBy(participant_b()),
        amount: 10,
    };
    let before = ctx;
    let r = deposit_sol(&mut ctx, 5);
    assert!(matches!(r, Err(CustomError::NotStakeOwner)));
    assert_eq!(ctx, before);
}

#[test]
fn deposit_needs_a_funded_caller() {
    let mut ctx = fresh_stake_ctx(participant_b(), 4);
    let before = ctx;
    let r = deposit_sol(&mut ctx, 5);
    assert!(matches!(r, Err(CustomError::InsufficientFunds)));
    assert_eq!(ctx, before);
}

#[test]
fn deposit_detects_backing_value_overflow() {
    let mut ctx = fresh_stake_ctx(participant_b(), 100);
    ctx.user_stake_lamports = u64::MAX;
    let before = ctx;
    let r = deposit_sol(&mut ctx, 5);
    assert!(matches!(r, Err(CustomError::CalculationOverflow)));
    assert_eq!(ctx, before);
}

#[test]
fn sequential_deposits_combine() {
    let mut two_steps = fresh_stake_ctx(participant_b(), 1_000);
    deposit_sol(&mut two_steps, 200).unwrap();
    let ev = deposit_sol(&mut two_steps, 300).unwrap();
    assert_eq!(ev.total_staked, 500);

    let mut one_step = fresh_stake_ctx(participant_b(), 1_000);
    deposit_sol(&mut one_step, 500).unwrap();

    assert_eq!(two_steps, one_step);
    assert_eq!(two_steps.user_stake.amount, 500);
    assert_eq!(two_steps.staker_lamports, 500);
    assert_eq!(two_steps.user_stake_lamports, 500);
}

#[test]
fn deposit_up_to_the_cap_is_allowed() {
    let mut ctx = fresh_stake_ctx(participant_b(), u64::MAX);
    let ev = deposit_sol(&mut ctx, MAX_STAKE).unwrap();
    assert_eq!(ev.total_staked, MAX_STAKE);
    assert_eq!(ctx.user_stake.amount, MAX_STAKE);
}

#[test]
fn withdraw_of_zero_or_above_balance_is_rejected() {
    let mut ctx = fresh_stake_ctx(participant_b(), 1_000);
    deposit_sol(&mut ctx, 100).unwrap();
    assert!(matches!(
        withdraw_sol(&mut ctx, 0),
        Err(CustomError::InvalidAmount)
    ));
    assert!(matches!(
        withdraw_sol(&mut ctx, 101),
        Err(CustomError::InvalidAmount)
    ));
    assert_eq!(ctx.user_stake.amount, 100);
    assert_eq!(ctx.user_stake_lamports, 100);
}

#[test]
fn withdraw_before_any_deposit_fails_on_ownership() {
    // A caller who never deposited is turned away before the amount is
    // held against the balance, whatever the amount.
    let mut ctx = fresh_stake_ctx(participant_c(), 10);
    let before = ctx;
    for amount in [1, 5, u64::MAX] {
        let r = withdraw_sol(&mut ctx, amount);
        assert!(matches!(r, Err(CustomError::AttemptedWithdrawBeforeStake)));
        assert_eq!(ctx, before);
    }
}

#[test]
fn withdraw_from_someone_elses_record_is_rejected() {
    let mut ctx = fresh_stake_ctx(participant_c(), 10);
    ctx.user_stake = UserStake {
        staker: StakeOwner::ClaimedBy(participant_b()),
        amount: 50,
    };
    ctx.user_stake_lamports = 50;
    let before = ctx;
    let r = withdraw_sol(&mut ctx, 5);
    assert!(matches!(r, Err(CustomError::NotStakeOwner)));
    assert_eq!(ctx, before);
}

#[test]
fn withdraw_needs_enough_backing_value() {
    // The balance field is not debited by withdrawals, so it can exceed the
    // backing value after one; the backing value is what limits the next.
    let mut ctx = fresh_stake_ctx(participant_b(), 1_000);
    deposit_sol(&mut ctx, 500).unwrap();
    withdraw_sol(&mut ctx, 400).unwrap();
    assert_eq!(ctx.user_stake.amount, 500);
    assert_eq!(ctx.user_stake_lamports, 100);
    let r = withdraw_sol(&mut ctx, 200);
    assert!(matches!(r, Err(CustomError::InsufficientFunds)));
    assert_eq!(ctx.user_stake_lamports, 100);
}

#[test]
fn withdraw_detects_liquid_balance_overflow() {
    let mut ctx = fresh_stake_ctx(participant_b(), 1_000);
    deposit_sol(&mut ctx, 500).unwrap();
    ctx.staker_lamports = u64::MAX;
    let before = ctx;
    let r = withdraw_sol(&mut ctx, 5);
    assert!(matches!(r, Err(CustomError::CalculationOverflow)));
    assert_eq!(ctx, before);
}
