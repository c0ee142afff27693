use vesting_contract::{
    check_schedule, claim_vesting_sol, claim_vesting_tokens, create_account_from_pool, initialize,
    plan_purchase, plan_token_claim, purchase_vesting, Address, ClaimTokens, ClaimVesting,
    PurchaseVesting, TokenClaim, VestingAccount, VestingError, VestingPool, VestingSetup,
};

fn addr(b: u8) -> Address {
    Address { bytes: [b; 32] }
}

fn pool(total_amount: u64, price_per_sol: u64) -> VestingPool {
    VestingPool {
        authority: addr(1),
        token_mint: addr(9),
        price_per_sol,
        total_amount,
        claimed_amount: 0,
        vesting_start: 100,
        vesting_end: 200,
        vesting_ticks: 10,
    }
}

fn account(total_amount: u64, used_ticks: u64, claimed_amount: u64, last_claim: u64) -> VestingAccount {
    VestingAccount {
        authority: addr(2),
        token_mint: addr(9),
        total_amount,
        claimed_amount,
        vesting_start: 100,
        vesting_end: 200,
        vesting_ticks: 10,
        used_ticks,
        last_claim,
    }
}

fn claim_ctx(acct: VestingAccount, now: u64) -> ClaimTokens {
    ClaimTokens { user: addr(2), now, escrow_balance: 1_000_000, vesting_account: acct }
}

fn well_formed(a: &VestingAccount) -> bool {
    a.claimed_amount <= a.total_amount && a.used_ticks <= a.vesting_ticks
}

#[test]
fn address_comparison() {
    let mut other = addr(2);
    assert!(addr(2).same_as(&other));
    other.bytes[31] = 3;
    assert!(!addr(2).same_as(&other));
}

#[test]
fn initialize_creates_pool() {
    let setup = VestingSetup { user: addr(1), token_mint: addr(9) };
    let p = initialize(&setup, 5000, 100, 200, 10, 2000, true).unwrap();
    assert_eq!(p.total_amount, 5000);
    assert_eq!(p.claimed_amount, 0);
    assert_eq!(p.price_per_sol, 2000);
    assert_eq!((p.vesting_start, p.vesting_end, p.vesting_ticks), (100, 200, 10));
    assert!(p.authority.same_as(&addr(1)));
    assert!(p.token_mint.same_as(&addr(9)));
}

#[test]
fn initialize_rejects_invalid_schedule() {
    let setup = VestingSetup { user: addr(1), token_mint: addr(9) };
    assert_eq!(initialize(&setup, 5000, 200, 200, 10, 2000, true).unwrap_err(), VestingError::InvalidSchedule);
    assert_eq!(initialize(&setup, 5000, 300, 200, 10, 2000, true).unwrap_err(), VestingError::InvalidSchedule);
    assert_eq!(initialize(&setup, 5000, 100, 200, 0, 2000, false).unwrap_err(), VestingError::InvalidSchedule);
    assert_eq!(check_schedule(100, 200, 0), Err(VestingError::InvalidSchedule));
    assert_eq!(check_schedule(100, 101, 1), Ok(()));
}

#[test]
fn initialize_fails_when_deposit_fails() {
    let setup = VestingSetup { user: addr(1), token_mint: addr(9) };
    assert_eq!(initialize(&setup, 5000, 100, 200, 10, 2000, false).unwrap_err(), VestingError::SetupFailed);
}

#[test]
fn first_purchase_creates_account_and_moves_allocation() {
    let mut ctx = PurchaseVesting { user: addr(2), now: 50, vesting_pool: pool(5000, 2000), vesting_account: None };
    // 1.5 units of payment at 2000 tokens per unit.
    assert_eq!(plan_purchase(&ctx, 1_500_000_000), Ok(3000));
    assert_eq!(purchase_vesting(&mut ctx, 1_500_000_000, true), Ok(3000));
    assert_eq!(ctx.vesting_pool.total_amount, 2000);
    let a = ctx.vesting_account.unwrap();
    assert_eq!(a.total_amount, 3000);
    assert_eq!((a.claimed_amount, a.used_ticks, a.last_claim), (0, 0, 50));
    assert_eq!((a.vesting_start, a.vesting_end, a.vesting_ticks), (100, 200, 10));
    assert!(a.authority.same_as(&addr(2)));
    assert!(a.token_mint.same_as(&addr(9)));
}

#[test]
fn purchase_adds_to_existing_account() {
    let existing = account(700, 3, 200, 400);
    let mut ctx = PurchaseVesting { user: addr(2), now: 900, vesting_pool: pool(5000, 2000), vesting_account: Some(existing) };
    // The result is the buyer's updated allocation: 700 held plus 2000 bought.
    assert_eq!(purchase_vesting(&mut ctx, 1_000_000_000, true), Ok(2700));
    assert_eq!(ctx.vesting_pool.total_amount, 3000);
    let a = ctx.vesting_account.unwrap();
    assert_eq!(a.total_amount, 2700);
    assert_eq!((a.claimed_amount, a.used_ticks, a.last_claim), (200, 3, 400));
}

#[test]
fn purchase_allocation_rounds_down() {
    let mut ctx = PurchaseVesting { user: addr(2), now: 50, vesting_pool: pool(5000, 3), vesting_account: None };
    // 999_999_999 * 3 / 10^9 = 2.999999997
    assert_eq!(purchase_vesting(&mut ctx, 999_999_999, true), Ok(2));
    assert_eq!(ctx.vesting_pool.total_amount, 4998);
}

#[test]
fn purchase_beyond_supply_fails_and_changes_nothing() {
    let existing = account(700, 3, 200, 400);
    let mut ctx = PurchaseVesting { user: addr(2), now: 900, vesting_pool: pool(1999, 2000), vesting_account: Some(existing) };
    assert_eq!(purchase_vesting(&mut ctx, 1_000_000_000, true), Err(VestingError::InsufficientPoolSupply));
    assert_eq!(ctx.vesting_pool.total_amount, 1999);
    assert_eq!(ctx.vesting_account.unwrap().total_amount, 700);
}

#[test]
fn purchase_of_exact_supply_succeeds() {
    let mut ctx = PurchaseVesting { user: addr(2), now: 900, vesting_pool: pool(2000, 2000), vesting_account: None };
    assert_eq!(purchase_vesting(&mut ctx, 1_000_000_000, true), Ok(2000));
    assert_eq!(ctx.vesting_pool.total_amount, 0);
}

#[test]
fn purchase_payment_failure_changes_nothing() {
    let mut ctx = PurchaseVesting { user: addr(2), now: 900, vesting_pool: pool(5000, 2000), vesting_account: None };
    assert_eq!(purchase_vesting(&mut ctx, 1_000_000_000, false), Err(VestingError::PaymentTransferFailed));
    assert_eq!(ctx.vesting_pool.total_amount, 5000);
    assert!(ctx.vesting_account.is_none());
}

#[test]
fn purchase_overflowing_product_fails() {
    let mut ctx = PurchaseVesting { user: addr(2), now: 900, vesting_pool: pool(u64::MAX, 2), vesting_account: None };
    let paid = u64::MAX / 2 + 1;
    assert_eq!(purchase_vesting(&mut ctx, paid, true), Err(VestingError::ArithmeticOverflow));
    assert_eq!(ctx.vesting_pool.total_amount, u64::MAX);
    assert!(ctx.vesting_account.is_none());
}

#[test]
fn purchase_overflowing_allocation_fails() {
    let existing = account(u64::MAX - 1, 0, 0, 400);
    let mut ctx = PurchaseVesting { user: addr(2), now: 900, vesting_pool: pool(5000, 2000), vesting_account: Some(existing) };
    assert_eq!(purchase_vesting(&mut ctx, 1_000_000_000, true), Err(VestingError::ArithmeticOverflow));
    assert_eq!(ctx.vesting_pool.total_amount, 5000);
}

#[test]
fn purchases_conserve_pool_supply() {
    let setup = VestingSetup { user: addr(1), token_mint: addr(9) };
    let initial = initialize(&setup, 10_000, 100, 200, 10, 2000, true).unwrap();
    let mut ctx = PurchaseVesting { user: addr(2), now: 50, vesting_pool: initial, vesting_account: None };
    let mut allocated_sum: u64 = 0;
    for paid in [1_000_000_000u64, 250_000_000, 333_333_333, 7, 2_000_000_000] {
        let supply_before = ctx.vesting_pool.total_amount;
        let total = purchase_vesting(&mut ctx, paid, true).unwrap();
        allocated_sum += supply_before - ctx.vesting_pool.total_amount;
        assert_eq!(total, allocated_sum);
    }
    assert_eq!(allocated_sum, 2000 + 500 + 666 + 0 + 4000);
    assert_eq!(allocated_sum + ctx.vesting_pool.total_amount, 10_000);
    assert_eq!(ctx.vesting_account.unwrap().total_amount, allocated_sum);
}

#[test]
fn claim_two_of_ten_ticks() {
    let mut ctx = claim_ctx(account(1000, 0, 0, 1000), 1250);
    assert_eq!(plan_token_claim(&ctx), Ok(TokenClaim { ticks: 2, amount: 200 }));
    assert_eq!(claim_vesting_tokens(&mut ctx, true), Ok(200));
    let a = ctx.vesting_account;
    assert_eq!(a.used_ticks, 2);
    assert_eq!(a.claimed_amount, 200);
    assert_eq!(a.last_claim, 1250);
}

#[test]
fn claim_amount_rounds_down() {
    let mut ctx = claim_ctx(account(999, 0, 0, 1000), 1100);
    assert_eq!(claim_vesting_tokens(&mut ctx, true), Ok(99));
    assert_eq!(ctx.vesting_account.claimed_amount, 99);
}

#[test]
fn claim_never_takes_more_ticks_than_remain() {
    let mut ctx = claim_ctx(account(1000, 8, 800, 1000), 5000);
    assert_eq!(claim_vesting_tokens(&mut ctx, true), Ok(200));
    let a = ctx.vesting_account;
    assert_eq!((a.used_ticks, a.claimed_amount), (10, 1000));
    assert!(well_formed(&a));
    ctx.now = 9000;
    assert_eq!(claim_vesting_tokens(&mut ctx, true), Err(VestingError::VestingEnded));
}

#[test]
fn claim_after_all_ticks_fails_whatever_the_time() {
    for now in [0u64, 1000, 1_000_000] {
        let mut ctx = claim_ctx(account(1000, 10, 1000, 500), now);
        assert_eq!(claim_vesting_tokens(&mut ctx, true), Err(VestingError::VestingEnded));
        assert_eq!(ctx.vesting_account.last_claim, 500);
    }
}

#[test]
fn claim_before_a_full_tick_fails() {
    let mut ctx = claim_ctx(account(1000, 0, 0, 1000), 1099);
    assert_eq!(claim_vesting_tokens(&mut ctx, true), Err(VestingError::NotTimeToClaim));
    let a = ctx.vesting_account;
    assert_eq!((a.used_ticks, a.claimed_amount, a.last_claim), (0, 0, 1000));
}

#[test]
fn claim_before_vesting_start_fails() {
    let mut acct = account(1000, 0, 0, 0);
    acct.vesting_start = 500;
    acct.vesting_end = 600;
    let mut ctx = claim_ctx(acct, 450);
    assert_eq!(claim_vesting_tokens(&mut ctx, true), Err(VestingError::NotTimeToClaim));
    assert_eq!(ctx.vesting_account.last_claim, 0);
}

#[test]
fn claim_with_clock_behind_last_claim_fails() {
    let mut ctx = claim_ctx(account(1000, 0, 0, 2000), 1500);
    assert_eq!(claim_vesting_tokens(&mut ctx, true), Err(VestingError::NotTimeToClaim));
}

#[test]
fn claim_transfer_failure_changes_nothing() {
    let mut ctx = claim_ctx(account(1000, 1, 100, 1000), 1350);
    assert_eq!(claim_vesting_tokens(&mut ctx, false), Err(VestingError::TokenTransferFailed));
    let a = ctx.vesting_account;
    assert_eq!((a.used_ticks, a.claimed_amount, a.last_claim), (1, 100, 1000));
}

#[test]
fn claim_by_stranger_fails() {
    let mut ctx = claim_ctx(account(1000, 0, 0, 1000), 1250);
    ctx.user = addr(7);
    assert_eq!(claim_vesting_tokens(&mut ctx, true), Err(VestingError::Unauthorized));
    assert_eq!(ctx.vesting_account.claimed_amount, 0);
}

#[test]
fn claim_with_short_escrow_fails() {
    let mut ctx = claim_ctx(account(1000, 0, 0, 1000), 1250);
    ctx.escrow_balance = 999;
    assert_eq!(claim_vesting_tokens(&mut ctx, true), Err(VestingError::InsufficientEscrowTokens));
    assert_eq!(ctx.vesting_account.used_ticks, 0);
}

#[test]
fn bounds_hold_across_purchases_and_claims() {
    let mut p = PurchaseVesting { user: addr(2), now: 100, vesting_pool: pool(1_000_000, 777), vesting_account: None };
    purchase_vesting(&mut p, 1_234_567_891, true).unwrap();
    let mut c = claim_ctx(p.vesting_account.unwrap(), 250);
    let mut now = 250u64;
    for step in 0..30u64 {
        c.now = now;
        let _ = claim_vesting_tokens(&mut c, step % 4 != 3);
        assert!(well_formed(&c.vesting_account));
        assert!(c.vesting_account.is_well_formed());
        if step % 5 == 0 {
            p.vesting_account = Some(c.vesting_account);
            p.now = now;
            let _ = purchase_vesting(&mut p, 300_000_001, true);
            c.vesting_account = p.vesting_account.unwrap();
            assert!(c.vesting_account.is_well_formed());
        }
        now += 137;
    }
    assert_eq!(c.vesting_account.used_ticks, 10);
    assert!(c.vesting_account.claimed_amount <= c.vesting_account.total_amount);
}

#[test]
fn fresh_account_copies_pool_schedule() {
    let a = create_account_from_pool(&pool(5000, 2000), addr(4), 77);
    assert_eq!((a.total_amount, a.claimed_amount, a.used_ticks, a.last_claim), (0, 0, 0, 77));
    assert_eq!((a.vesting_start, a.vesting_end, a.vesting_ticks), (100, 200, 10));
    assert!(a.authority.same_as(&addr(4)));
    assert!(a.is_well_formed());
}

#[test]
fn ill_formed_account_is_detected() {
    assert!(!account(100, 0, 101, 0).is_well_formed());
    assert!(!account(100, 11, 0, 0).is_well_formed());
    // 50 of 100 released after one of ten ticks runs ahead of the schedule.
    assert!(!account(100, 1, 50, 0).is_well_formed());
    assert!(account(100, 5, 50, 0).is_well_formed());
}

#[test]
fn proceeds_above_reserve_are_claimable() {
    let ctx = ClaimVesting { user: addr(1), vesting_pool: pool(0, 1), pool_balance: 5_000_000, reserved_balance: 1_200_000 };
    assert_eq!(claim_vesting_sol(&ctx), Ok(3_800_000));
}

#[test]
fn proceeds_below_reserve_give_nothing() {
    let ctx = ClaimVesting { user: addr(1), vesting_pool: pool(0, 1), pool_balance: 1_000_000, reserved_balance: 1_200_000 };
    assert_eq!(claim_vesting_sol(&ctx), Ok(0));
}

#[test]
fn proceeds_claim_by_stranger_fails() {
    let ctx = ClaimVesting { user: addr(2), vesting_pool: pool(0, 1), pool_balance: 5_000_000, reserved_balance: 0 };
    assert_eq!(claim_vesting_sol(&ctx), Err(VestingError::Unauthorized));
}
