use adv_vault::{
    create_vault, stake_tokens, withdraw_stake, Address, CreateVault, StakeBook, StakeTokens,
    UserStake, Vault, VaultError, WithdrawStake, SECONDS_PER_YEAR,
};

fn addr(b: u8) -> Address {
    Address::new([b; 32])
}

fn blank_stake(user: Address) -> UserStake {
    UserStake {
        user,
        amount: 0,
        stake_years: 0,
        stake_time: 0,
        unlock_time: 0,
        is_withdrawn: false,
        bump: 0,
    }
}

fn same_stake(a: &UserStake, b: &UserStake) -> bool {
    a.user == b.user
        && a.amount == b.amount
        && a.stake_years == b.stake_years
        && a.stake_time == b.stake_time
        && a.unlock_time == b.unlock_time
        && a.is_withdrawn == b.is_withdrawn
        && a.bump == b.bump
}

fn vault_of(admin: Address) -> Vault {
    let mut ctx = CreateVault {
        vault: Vault { admin: addr(0), bump: 0 },
        admin,
        vault_bump: 254,
    };
    create_vault(&mut ctx);
    ctx.vault
}

fn stake_ctx(user: Address, now: i64) -> StakeTokens {
    StakeTokens {
        vault: vault_of(addr(1)),
        user_stake: blank_stake(user),
        user,
        user_stake_bump: 253,
        current_time: now,
    }
}

fn opened(user: Address, amount: u64, years: u8, now: i64) -> UserStake {
    let mut ctx = stake_ctx(user, now);
    stake_tokens(&mut ctx, amount, years).unwrap();
    ctx.user_stake
}

#[test]
fn seconds_per_year_is_365_days() {
    assert_eq!(SECONDS_PER_YEAR, 31_536_000);
}

#[test]
fn create_vault_records_admin_and_bump() {
    let v = vault_of(addr(9));
    assert!(v.admin == addr(9));
    assert_eq!(v.bump, 254);
}

#[test]
fn vault_initialize_overwrites_fields() {
    let mut v = Vault { admin: addr(0), bump: 0 };
    v.initialize(addr(5), 17);
    assert!(v.admin == addr(5));
    assert_eq!(v.bump, 17);
}

#[test]
fn address_equality_is_bytewise() {
    let mut b = [3u8; 32];
    assert!(Address::new(b) == addr(3));
    b[31] = 4;
    assert!(Address::new(b) != addr(3));
    assert!(!Address::new(b).same_as(&addr(3)));
}

#[test]
fn stake_records_position_and_event() {
    let u = addr(2);
    let mut ctx = stake_ctx(u, 1_000);
    let ev = stake_tokens(&mut ctx, 500, 1).unwrap();
    assert!(ev.user == u);
    assert_eq!(ev.amount, 500);
    assert_eq!(ev.stake_years, 1);
    assert_eq!(ev.unlock_time, 1_000 + 31_536_000);
    let s = ctx.user_stake;
    assert!(s.user == u);
    assert_eq!(s.amount, 500);
    assert_eq!(s.stake_years, 1);
    assert_eq!(s.stake_time, 1_000);
    assert_eq!(s.unlock_time, 31_537_000);
    assert!(!s.is_withdrawn);
    assert_eq!(s.bump, 253);
}

#[test]
fn stake_zero_amount_fails_invalid_amount() {
    let mut ctx = stake_ctx(addr(2), 1_000);
    let before = ctx.user_stake;
    assert_eq!(stake_tokens(&mut ctx, 0, 1).unwrap_err(), VaultError::InvalidAmount);
    assert!(same_stake(&before, &ctx.user_stake));
}

#[test]
fn stake_zero_amount_with_bad_term_reports_amount_first() {
    let mut ctx = stake_ctx(addr(2), 1_000);
    assert_eq!(stake_tokens(&mut ctx, 0, 3).unwrap_err(), VaultError::InvalidAmount);
}

#[test]
fn stake_three_years_fails_invalid_stake_period() {
    let mut ctx = stake_ctx(addr(2), 1_000);
    let before = ctx.user_stake;
    assert_eq!(stake_tokens(&mut ctx, 100, 3).unwrap_err(), VaultError::InvalidStakePeriod);
    assert!(same_stake(&before, &ctx.user_stake));
}

#[test]
fn stake_zero_years_fails_invalid_stake_period() {
    let mut ctx = stake_ctx(addr(2), 1_000);
    assert_eq!(stake_tokens(&mut ctx, 100, 0).unwrap_err(), VaultError::InvalidStakePeriod);
}

#[test]
fn stake_near_time_limit_fails_math_overflow() {
    let mut ctx = stake_ctx(addr(2), i64::MAX - 10);
    let before = ctx.user_stake;
    assert_eq!(stake_tokens(&mut ctx, 100, 1).unwrap_err(), VaultError::MathOverflow);
    assert!(same_stake(&before, &ctx.user_stake));
}

#[test]
fn stake_at_exact_time_limit_succeeds() {
    let now = i64::MAX - 2 * 31_536_000;
    let s = opened(addr(2), 100, 2, now);
    assert_eq!(s.unlock_time, i64::MAX);
}

#[test]
fn withdraw_right_after_stake_is_still_locked() {
    let u = addr(2);
    for years in 1u8..=2 {
        let s = opened(u, 1_000, years, 5_000);
        let mut ctx = WithdrawStake { vault: vault_of(addr(1)), user_stake: s, user: u, current_time: 5_000 };
        assert_eq!(withdraw_stake(&mut ctx).unwrap_err(), VaultError::StillLocked);
        assert!(same_stake(&s, &ctx.user_stake));
        ctx.current_time = s.unlock_time - 1;
        assert_eq!(withdraw_stake(&mut ctx).unwrap_err(), VaultError::StillLocked);
        assert!(!ctx.user_stake.is_withdrawn);
    }
}

#[test]
fn withdraw_one_year_stake_pays_principal() {
    let u = addr(2);
    let s = opened(u, 750, 1, 0);
    let mut ctx = WithdrawStake { vault: vault_of(addr(1)), user_stake: s, user: u, current_time: s.unlock_time };
    let ev = withdraw_stake(&mut ctx).unwrap();
    assert_eq!(ev.total_return, 750);
    assert_eq!(ev.original_amount, 750);
    assert_eq!(ev.multiplier, 1);
    assert!(ev.user == u);
    assert!(ctx.user_stake.is_withdrawn);
    assert_eq!(withdraw_stake(&mut ctx).unwrap_err(), VaultError::AlreadyWithdrawn);
}

#[test]
fn two_year_scenario_pays_double_once() {
    let admin = addr(0xA);
    let u = addr(0xB);
    let t0: i64 = 1_700_000_000;
    let mut book = StakeBook::new(vault_of(admin));
    assert!(book.vault.admin == admin);
    let created = book.stake(u, 1_000, 2, t0, 250).unwrap();
    assert_eq!(created.unlock_time, t0 + 2 * 31_536_000);
    let paid = book.withdraw(u, t0 + 2 * 31_536_000).unwrap();
    assert_eq!(paid.total_return, 2_000);
    assert_eq!(paid.multiplier, 2);
    assert_eq!(paid.original_amount, 1_000);
    assert!(book.stakes[0].is_withdrawn);
    assert_eq!(book.withdraw(u, t0 + 3 * 31_536_000).unwrap_err(), VaultError::AlreadyWithdrawn);
    assert!(book.stakes[0].is_withdrawn);
}

#[test]
fn second_stake_for_same_user_fails_already_exists() {
    let u = addr(2);
    let mut book = StakeBook::new(vault_of(addr(1)));
    assert!(book.stake(u, 100, 1, 10, 1).is_ok());
    assert_eq!(book.stake(u, 200, 2, 20, 1).unwrap_err(), VaultError::AlreadyExists);
    assert_eq!(book.stakes.len(), 1);
    assert_eq!(book.stakes[0].amount, 100);
    assert!(book.stake(addr(3), 300, 2, 30, 1).is_ok());
    assert_eq!(book.stakes.len(), 2);
}

#[test]
fn failed_first_stake_leaves_room_for_another() {
    let u = addr(2);
    let mut book = StakeBook::new(vault_of(addr(1)));
    assert_eq!(book.stake(u, 0, 1, 10, 1).unwrap_err(), VaultError::InvalidAmount);
    assert_eq!(book.stakes.len(), 0);
    assert!(book.stake(u, 5, 1, 10, 1).is_ok());
}

#[test]
fn withdraw_without_position_is_unauthorized() {
    let mut book = StakeBook::new(vault_of(addr(1)));
    book.stake(addr(2), 100, 1, 0, 1).unwrap();
    assert_eq!(book.withdraw(addr(3), 40_000_000).unwrap_err(), VaultError::UnauthorizedUser);
    assert!(!book.stakes[0].is_withdrawn);
}

#[test]
fn foreign_signer_is_unauthorized_in_every_state() {
    let owner = addr(2);
    let other = addr(3);
    let s = opened(owner, 100, 1, 0);
    for t in [0, s.unlock_time, s.unlock_time + 1] {
        let mut ctx = WithdrawStake { vault: vault_of(addr(1)), user_stake: s, user: other, current_time: t };
        assert_eq!(withdraw_stake(&mut ctx).unwrap_err(), VaultError::UnauthorizedUser);
        assert!(!ctx.user_stake.is_withdrawn);
    }
    let mut done = s;
    done.mark_as_withdrawn();
    let mut ctx = WithdrawStake { vault: vault_of(addr(1)), user_stake: done, user: other, current_time: 0 };
    assert_eq!(withdraw_stake(&mut ctx).unwrap_err(), VaultError::UnauthorizedUser);
}

#[test]
fn withdraw_overflowing_payout_fails_math_overflow() {
    let u = addr(2);
    let s = opened(u, u64::MAX, 2, 0);
    let mut ctx = WithdrawStake { vault: vault_of(addr(1)), user_stake: s, user: u, current_time: s.unlock_time };
    assert_eq!(withdraw_stake(&mut ctx).unwrap_err(), VaultError::MathOverflow);
    assert!(!ctx.user_stake.is_withdrawn);
}

#[test]
fn check_if_unlocked_reports_withdrawn_before_locked() {
    let mut s = opened(addr(2), 10, 1, 0);
    assert_eq!(s.check_if_unlocked(0).unwrap_err(), VaultError::StillLocked);
    assert!(s.check_if_unlocked(31_536_000).is_ok());
    s.mark_as_withdrawn();
    assert_eq!(s.check_if_unlocked(0).unwrap_err(), VaultError::AlreadyWithdrawn);
    assert_eq!(s.check_if_unlocked(i64::MAX).unwrap_err(), VaultError::AlreadyWithdrawn);
}

#[test]
fn total_return_and_multiplier_by_term() {
    let mut s = blank_stake(addr(2));
    s.amount = 1_234;
    s.stake_years = 1;
    assert_eq!(s.get_multiplier(), 1);
    assert_eq!(s.calculate_total_return().unwrap(), 1_234);
    s.stake_years = 2;
    assert_eq!(s.get_multiplier(), 2);
    assert_eq!(s.calculate_total_return().unwrap(), 2_468);
    s.stake_years = 7;
    assert_eq!(s.get_multiplier(), 1);
    assert_eq!(s.calculate_total_return().unwrap(), 1_234);
    s.stake_years = 2;
    s.amount = u64::MAX / 2 + 1;
    assert_eq!(s.calculate_total_return().unwrap_err(), VaultError::MathOverflow);
}

#[test]
fn create_stake_sets_every_field() {
    let mut s = blank_stake(addr(0));
    s.is_withdrawn = true;
    s.create_stake(addr(4), 60, 2, 100, 9).unwrap();
    assert!(s.user == addr(4));
    assert_eq!(s.amount, 60);
    assert_eq!(s.stake_years, 2);
    assert_eq!(s.stake_time, 100);
    assert_eq!(s.unlock_time, 100 + 63_072_000);
    assert!(!s.is_withdrawn);
    assert_eq!(s.bump, 9);
    let before = s;
    assert_eq!(s.create_stake(addr(5), 1, 1, i64::MAX, 1).unwrap_err(), VaultError::MathOverflow);
    assert!(same_stake(&before, &s));
}
