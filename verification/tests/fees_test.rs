use simple_token::fees::{
    allocate, get_immediate_fee_config, round_bps, settle, truncate_bps, Allocation, Settlement,
};
use simple_token::{get_lock_fee_config, LockFeeConfig};

fn triple(liquidity_bps: u64, team_bps: u64, founder_bps: u64) -> LockFeeConfig {
    LockFeeConfig { liquidity_bps, team_bps, founder_bps }
}

#[test]
fn schedule_has_seven_bands() {
    assert_eq!(get_lock_fee_config(0), triple(400, 100, 25));
    assert_eq!(get_lock_fee_config(3), triple(400, 100, 25));
    assert_eq!(get_lock_fee_config(4), triple(500, 150, 25));
    assert_eq!(get_lock_fee_config(7), triple(500, 150, 25));
    assert_eq!(get_lock_fee_config(8), triple(600, 200, 25));
    assert_eq!(get_lock_fee_config(14), triple(600, 200, 25));
    assert_eq!(get_lock_fee_config(15), triple(1000, 250, 25));
    assert_eq!(get_lock_fee_config(31), triple(1000, 250, 25));
    assert_eq!(get_lock_fee_config(32), triple(1000, 300, 25));
    assert_eq!(get_lock_fee_config(45), triple(1000, 300, 25));
    assert_eq!(get_lock_fee_config(60), triple(1000, 300, 25));
    assert_eq!(get_lock_fee_config(61), triple(1500, 400, 25));
    assert_eq!(get_lock_fee_config(90), triple(1500, 400, 25));
    assert_eq!(get_lock_fee_config(91), triple(2000, 500, 25));
    assert_eq!(get_lock_fee_config(120), triple(2000, 500, 25));
    assert_eq!(get_lock_fee_config(u64::MAX), triple(2000, 500, 25));
}

#[test]
fn immediate_triple() {
    assert_eq!(get_immediate_fee_config(), triple(750, 200, 50));
}

#[test]
fn buy_of_one_billion_is_sliced_exactly() {
    let a = allocate(1_000_000_000, get_immediate_fee_config());
    assert_eq!(
        a,
        Allocation {
            team_share: 20_000_000,
            founder_fee: 5_000_000,
            locked_share: 75_000_000,
            usdc_for_tokens: 900_000_000,
        }
    );
    assert_eq!(a.team_share + a.founder_fee + a.locked_share + a.usdc_for_tokens, 1_000_000_000);
}

#[test]
fn allocation_truncates() {
    let a = allocate(9_999, get_immediate_fee_config());
    assert_eq!(a.team_share, 199);
    assert_eq!(a.founder_fee, 49);
    assert_eq!(a.locked_share, 749);
    assert_eq!(a.usdc_for_tokens, 9_999 - 199 - 49 - 749);
}

#[test]
fn allocation_of_the_largest_amount_conserves() {
    let a = allocate(u64::MAX, triple(5_000, 3_000, 2_000));
    assert_eq!(a.team_share, 5_534_023_222_112_865_484);
    assert_eq!(a.locked_share, u64::MAX / 2);
    assert_eq!(
        a.team_share as u128
            + a.founder_fee as u128
            + a.locked_share as u128
            + a.usdc_for_tokens as u128,
        u64::MAX as u128
    );
}

#[test]
fn allocation_over_sample_triples_never_exceeds_gross() {
    let grosses = [0u64, 1, 2, 3, 59, 9_999, 10_000, 10_001, 123_456_789, u64::MAX - 1, u64::MAX];
    for days in [0u64, 3, 7, 14, 31, 60, 90, 1_000] {
        for gross in grosses {
            let a = allocate(gross, get_lock_fee_config(days));
            let fees = a.team_share as u128 + a.founder_fee as u128 + a.locked_share as u128;
            assert!(fees <= gross as u128);
            assert_eq!(a.usdc_for_tokens as u128, gross as u128 - fees);
        }
    }
}

#[test]
fn shares_round_as_stated() {
    assert_eq!(truncate_bps(10_000, 25), 25);
    assert_eq!(truncate_bps(399, 25), 0);
    assert_eq!(truncate_bps(400, 25), 1);
    assert_eq!(round_bps(199, 25), 0);
    assert_eq!(round_bps(200, 25), 1);
    assert_eq!(round_bps(599, 25), 1);
    assert_eq!(round_bps(600, 25), 2);
    assert_eq!(round_bps(u64::MAX, 10_000), u64::MAX);
    assert_eq!(truncate_bps(u64::MAX, 10_000), u64::MAX);
}

#[test]
fn settlement_rounds_to_nearest() {
    let s = settle(1_000_003, get_immediate_fee_config());
    assert_eq!(
        s,
        Settlement {
            team_fee: 20_000,
            founder_fee: 5_000,
            liquidity_fee: 75_000,
            user_receives: 900_003,
        }
    );
    let s = settle(1_000_025, get_lock_fee_config(7));
    assert_eq!(s.team_fee, 15_000);
    assert_eq!(s.founder_fee, 2_500);
    assert_eq!(s.liquidity_fee, 50_001);
    assert_eq!(s.user_receives, 1_000_025 - 15_000 - 2_500 - 50_001);
}

#[test]
fn settlement_pays_nothing_where_fees_leave_nothing() {
    let s = settle(1, triple(5_000, 5_000, 0));
    assert_eq!(s.team_fee, 1);
    assert_eq!(s.liquidity_fee, 1);
    assert_eq!(s.founder_fee, 0);
    assert_eq!(s.user_receives, 0);
}

#[test]
fn early_unlock_penalty_is_fifty_bps_of_team_fee() {
    for days in [3u64, 7, 14, 31, 60, 90] {
        let plain = get_lock_fee_config(days);
        let early = plain.with_early_unlock_penalty();
        assert_eq!(early.team_bps, plain.team_bps + 50);
        assert_eq!(early.liquidity_bps, plain.liquidity_bps);
        assert_eq!(early.founder_bps, 25);
        for value in [0u64, 1, 2, 3, 99, 100, 101, 1_000_000, u64::MAX] {
            let a = settle(value, plain);
            let b = settle(value, early);
            assert!(b.team_fee >= a.team_fee);
            assert!(b.user_receives <= a.user_receives);
            assert_eq!(b.founder_fee, a.founder_fee);
            assert_eq!(
                b.team_fee as u128
                    + b.founder_fee as u128
                    + b.liquidity_fee as u128
                    + b.user_receives as u128,
                value as u128
            );
        }
    }
    let a = settle(1_000_000, get_lock_fee_config(7));
    let b = settle(1_000_000, get_lock_fee_config(7).with_early_unlock_penalty());
    assert_eq!(a.team_fee, 15_000);
    assert_eq!(b.team_fee, 20_000);
    assert_eq!(a.user_receives - b.user_receives, 5_000);
}

#[test]
fn valid_triples_take_at_most_the_whole() {
    assert!(triple(10_000, 0, 0).is_valid());
    assert!(triple(5_000, 3_000, 2_000).is_valid());
    assert!(!triple(5_000, 3_000, 2_001).is_valid());
    assert!(!triple(u64::MAX, u64::MAX, 2).is_valid());
    for days in [0u64, 3, 7, 14, 31, 60, 90, 91] {
        assert!(get_lock_fee_config(days).is_valid());
        assert!(get_lock_fee_config(days).with_early_unlock_penalty().is_valid());
    }
}
