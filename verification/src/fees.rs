//! The fee schedule and the two ways of slicing an amount by basis points.
//!
//! Payments into the sale are sliced with truncating division; payouts from
//! the reserve are sliced with rounding to the nearest unit, halves up. All
//! arithmetic is on integers.

use vstd::prelude::*;

verus! {

/// Basis points in a whole: 10,000 bps are 100%.
pub const BPS_DENOMINATOR: u64 = 10_000;

/// Team fee on an immediate buy or sell: 2%.
pub const TEAM_FEE_BPS: u64 = 200;

/// Founders' fee on an immediate buy or sell: 0.5%.
pub const FOUNDER_FEE_BPS: u64 = 50;

/// Share of an immediate buy or sell that stays locked in the reserve: 7.5%.
pub const LOCKED_LIQUIDITY_BPS: u64 = 750;

/// Founders' fee on every lock period: 0.25%.
pub const LOCK_FOUNDER_FEE_BPS: u64 = 25;

/// Added to the team fee when a position is unlocked early: 0.5%.
pub const EARLY_UNLOCK_PENALTY_BPS: u64 = 50;

/// A fee triple in basis points.
#[derive(Clone, Copy, Debug, PartialEq, Eq, Structural)]
pub struct LockFeeConfig {
    pub liquidity_bps: u64,
    pub team_bps: u64,
    pub founder_bps: u64,
}

impl LockFeeConfig {
    /// A triple is valid when its three fees together take no more than the
    /// whole.
    pub open spec fn valid(&self) -> bool {
        self.liquidity_bps + self.team_bps + self.founder_bps <= 10_000
    }

    /// The triple with the early-unlock penalty added to the team fee.
    pub open spec fn penalized(&self) -> LockFeeConfig {
        LockFeeConfig {
            liquidity_bps: self.liquidity_bps,
            team_bps: (self.team_bps + 50) as u64,
            founder_bps: self.founder_bps,
        }
    }

    /// Checks that the triple is valid.
    pub fn is_valid(&self) -> (r: bool)
        ensures
            r == self.valid(),
    {
        self.liquidity_bps as u128 + self.team_bps as u128 + self.founder_bps as u128 <= 10_000
    }

    /// Adds the early-unlock penalty to the team fee.
    pub fn with_early_unlock_penalty(&self) -> (config: LockFeeConfig)
        requires
            self.team_bps + 50 <= u64::MAX,
        ensures
            config == self.penalized(),
    {
        LockFeeConfig {
            liquidity_bps: self.liquidity_bps,
            team_bps: self.team_bps + EARLY_UNLOCK_PENALTY_BPS,
            founder_bps: self.founder_bps,
        }
    }
}

/// The fee triple of a lock of `lock_days` days: seven bands, the founders'
/// fee the same in all of them.
pub open spec fn lock_fee_config(lock_days: u64) -> LockFeeConfig {
    if lock_days <= 3 {
        LockFeeConfig { liquidity_bps: 400, team_bps: 100, founder_bps: 25 }
    } else if lock_days <= 7 {
        LockFeeConfig { liquidity_bps: 500, team_bps: 150, founder_bps: 25 }
    } else if lock_days <= 14 {
        LockFeeConfig { liquidity_bps: 600, team_bps: 200, founder_bps: 25 }
    } else if lock_days <= 31 {
        LockFeeConfig { liquidity_bps: 1000, team_bps: 250, founder_bps: 25 }
    } else if lock_days <= 60 {
        LockFeeConfig { liquidity_bps: 1000, team_bps: 300, founder_bps: 25 }
    } else if lock_days <= 90 {
        LockFeeConfig { liquidity_bps: 1500, team_bps: 400, founder_bps: 25 }
    } else {
        LockFeeConfig { liquidity_bps: 2000, team_bps: 500, founder_bps: 25 }
    }
}

/// The fee triple of an immediate buy or sell.
pub open spec fn immediate_fee_config() -> LockFeeConfig {
    LockFeeConfig { liquidity_bps: 750, team_bps: 200, founder_bps: 50 }
}

/// Looks up the fee triple of a lock of `lock_days` days.
pub fn get_lock_fee_config(lock_days: u64) -> (config: LockFeeConfig)
    ensures
        config == lock_fee_config(lock_days),
        config.founder_bps == 25,
        config.liquidity_bps <= 2000,
        config.team_bps <= 500,
        config.valid(),
        config.penalized().valid(),
{
    if lock_days <= 3 {
        LockFeeConfig { liquidity_bps: 400, team_bps: 100, founder_bps: LOCK_FOUNDER_FEE_BPS }
    } else if lock_days <= 7 {
        LockFeeConfig { liquidity_bps: 500, team_bps: 150, founder_bps: LOCK_FOUNDER_FEE_BPS }
    } else if lock_days <= 14 {
        LockFeeConfig { liquidity_bps: 600, team_bps: 200, founder_bps: LOCK_FOUNDER_FEE_BPS }
    } else if lock_days <= 31 {
        LockFeeConfig { liquidity_bps: 1000, team_bps: 250, founder_bps: LOCK_FOUNDER_FEE_BPS }
    } else if lock_days <= 60 {
        LockFeeConfig { liquidity_bps: 1000, team_bps: 300, founder_bps: LOCK_FOUNDER_FEE_BPS }
    } else if lock_days <= 90 {
        LockFeeConfig { liquidity_bps: 1500, team_bps: 400, founder_bps: LOCK_FOUNDER_FEE_BPS }
    } else {
        LockFeeConfig { liquidity_bps: 2000, team_bps: 500, founder_bps: LOCK_FOUNDER_FEE_BPS }
    }
}

/// The fee triple of an immediate buy or sell.
pub fn get_immediate_fee_config() -> (config: LockFeeConfig)
    ensures
        config == immediate_fee_config(),
        config.valid(),
{
    LockFeeConfig {
        liquidity_bps: LOCKED_LIQUIDITY_BPS,
        team_bps: TEAM_FEE_BPS,
        founder_bps: FOUNDER_FEE_BPS,
    }
}

/// `bps` basis points of `amount`, rounded down.
pub open spec fn truncated_share(amount: u64, bps: u64) -> int {
    (amount * bps) / 10_000
}

/// `bps` basis points of `value`, rounded to the nearest unit, halves up.
pub open spec fn rounded_share(value: u64, bps: u64) -> int {
    (value * bps + 5_000) / 10_000
}

/// How a payment into the sale is sliced.
#[derive(Clone, Copy, Debug, PartialEq, Eq, Structural)]
pub struct Allocation {
    pub team_share: u64,
    pub founder_fee: u64,
    pub locked_share: u64,
    /// What is left to buy tokens with.
    pub usdc_for_tokens: u64,
}

/// How a payout from the reserve is sliced.
#[derive(Clone, Copy, Debug, PartialEq, Eq, Structural)]
pub struct Settlement {
    pub team_fee: u64,
    pub founder_fee: u64,
    /// Stays in the reserve.
    pub liquidity_fee: u64,
    pub user_receives: u64,
}

/// The slices of a payment of `amount` under `config`.
pub open spec fn allocation_of(amount: u64, config: LockFeeConfig) -> Allocation {
    Allocation {
        team_share: truncated_share(amount, config.team_bps) as u64,
        founder_fee: truncated_share(amount, config.founder_bps) as u64,
        locked_share: truncated_share(amount, config.liquidity_bps) as u64,
        usdc_for_tokens: (amount - truncated_share(amount, config.team_bps) - truncated_share(
            amount,
            config.founder_bps,
        ) - truncated_share(amount, config.liquidity_bps)) as u64,
    }
}

/// The slices of a payout worth `value` under `config`. The user receives
/// what the three fees leave, and nothing where they leave nothing.
pub open spec fn settlement_of(value: u64, config: LockFeeConfig) -> Settlement {
    let fees = rounded_share(value, config.team_bps) + rounded_share(value, config.founder_bps)
        + rounded_share(value, config.liquidity_bps);
    Settlement {
        team_fee: rounded_share(value, config.team_bps) as u64,
        founder_fee: rounded_share(value, config.founder_bps) as u64,
        liquidity_fee: rounded_share(value, config.liquidity_bps) as u64,
        user_receives: if fees <= value {
            (value - fees) as u64
        } else {
            0
        },
    }
}

/// A share of at most the whole, rounded down, is at most the amount.
pub proof fn lemma_truncated_share_bounds(amount: u64, bps: u64)
    ensures
        0 <= truncated_share(amount, bps),
        truncated_share(amount, bps) * 10_000 <= amount * bps,
        bps <= 10_000 ==> truncated_share(amount, bps) <= amount,
{
    let p: int = amount * bps;
    assert(0 <= p) by (nonlinear_arith)
        requires
            p == amount * bps,
    ;
    if bps <= 10_000 {
        assert(p <= amount * 10_000) by (nonlinear_arith)
            requires
                p == amount * bps,
                bps <= 10_000,
        ;
    }
}

/// A share of at most the whole, rounded to the nearest unit, is at most the
/// value, and grows with the fee.
pub proof fn lemma_rounded_share_bounds(value: u64, bps: u64, more: u64)
    ensures
        0 <= rounded_share(value, bps),
        bps <= 10_000 ==> rounded_share(value, bps) <= value,
        bps <= more ==> rounded_share(value, bps) <= rounded_share(value, more),
{
    let p: int = value * bps;
    let q: int = value * more;
    assert(0 <= p) by (nonlinear_arith)
        requires
            p == value * bps,
    ;
    if bps <= 10_000 {
        assert(p <= value * 10_000) by (nonlinear_arith)
            requires
                p == value * bps,
                bps <= 10_000,
        ;
    }
    if bps <= more {
        assert(p <= q) by (nonlinear_arith)
            requires
                p == value * bps,
                q == value * more,
                bps <= more,
        ;
    }
}

/// For every valid fee triple the three slices of a payment together are at
/// most the payment, and what is left for the curve is the payment less the
/// three slices.
pub proof fn lemma_allocation_conserves(amount: u64, config: LockFeeConfig)
    requires
        config.valid(),
    ensures
        0 <= truncated_share(amount, config.team_bps),
        0 <= truncated_share(amount, config.founder_bps),
        0 <= truncated_share(amount, config.liquidity_bps),
        truncated_share(amount, config.team_bps) + truncated_share(amount, config.founder_bps)
            + truncated_share(amount, config.liquidity_bps) <= amount,
        allocation_of(amount, config).team_share + allocation_of(amount, config).founder_fee
            + allocation_of(amount, config).locked_share + allocation_of(
            amount,
            config,
        ).usdc_for_tokens == amount,
{
    lemma_truncated_share_bounds(amount, config.team_bps);
    lemma_truncated_share_bounds(amount, config.founder_bps);
    lemma_truncated_share_bounds(amount, config.liquidity_bps);
    let t: int = amount * config.team_bps;
    let f: int = amount * config.founder_bps;
    let l: int = amount * config.liquidity_bps;
    assert(t + f + l <= amount * 10_000) by (nonlinear_arith)
        requires
            t == amount * config.team_bps,
            f == amount * config.founder_bps,
            l == amount * config.liquidity_bps,
            config.liquidity_bps + config.team_bps + config.founder_bps <= 10_000,
    ;
}

/// Slices a payment of `amount` under `config`, rounding each fee down.
pub fn allocate(amount: u64, config: LockFeeConfig) -> (a: Allocation)
    requires
        config.valid(),
    ensures
        a == allocation_of(amount, config),
        a.team_share == truncated_share(amount, config.team_bps),
        a.founder_fee == truncated_share(amount, config.founder_bps),
        a.locked_share == truncated_share(amount, config.liquidity_bps),
        a.team_share + a.founder_fee + a.locked_share <= amount,
        a.usdc_for_tokens == amount - a.team_share - a.founder_fee - a.locked_share,
{
    proof {
        lemma_allocation_conserves(amount, config);
        lemma_truncated_share_bounds(amount, config.team_bps);
        lemma_truncated_share_bounds(amount, config.founder_bps);
        lemma_truncated_share_bounds(amount, config.liquidity_bps);
    }
    let team_share: u64 = truncate_bps(amount, config.team_bps);
    let founder_fee: u64 = truncate_bps(amount, config.founder_bps);
    let locked_share: u64 = truncate_bps(amount, config.liquidity_bps);
    Allocation {
        team_share,
        founder_fee,
        locked_share,
        usdc_for_tokens: amount - team_share - founder_fee - locked_share,
    }
}

/// `bps` basis points of `amount`, rounded down.
pub fn truncate_bps(amount: u64, bps: u64) -> (share: u64)
    requires
        bps <= 10_000,
    ensures
        share == truncated_share(amount, bps),
        share <= amount,
{
    proof {
        lemma_truncated_share_bounds(amount, bps);
        assert(amount * bps <= u64::MAX * 10_000) by (nonlinear_arith)
            requires
                amount <= u64::MAX,
                bps <= 10_000,
        ;
    }
    let product: u128 = (amount as u128) * (bps as u128);
    (product / 10_000) as u64
}

/// `bps` basis points of `value`, rounded to the nearest unit, halves up.
pub fn round_bps(value: u64, bps: u64) -> (share: u64)
    requires
        bps <= 10_000,
    ensures
        share == rounded_share(value, bps),
        share <= value,
{
    proof {
        lemma_rounded_share_bounds(value, bps, bps);
        assert(0 <= value * bps <= u64::MAX * 10_000) by (nonlinear_arith)
            requires
                0 <= value <= u64::MAX,
                0 <= bps <= 10_000,
        ;
    }
    let product: u128 = (value as u128) * (bps as u128);
    ((product + 5_000) / 10_000) as u64
}

/// Slices a payout worth `value` under `config`, rounding each fee to the
/// nearest unit.
pub fn settle(value: u64, config: LockFeeConfig) -> (s: Settlement)
    requires
        config.valid(),
    ensures
        s == settlement_of(value, config),
        s.team_fee == rounded_share(value, config.team_bps),
        s.founder_fee == rounded_share(value, config.founder_bps),
        s.liquidity_fee == rounded_share(value, config.liquidity_bps),
        s.team_fee + s.founder_fee + s.liquidity_fee <= value ==> s.team_fee + s.founder_fee
            + s.liquidity_fee + s.user_receives == value,
        s.team_fee + s.founder_fee + s.liquidity_fee > value ==> s.user_receives == 0,
{
    let team_fee: u64 = round_bps(value, config.team_bps);
    let founder_fee: u64 = round_bps(value, config.founder_bps);
    let liquidity_fee: u64 = round_bps(value, config.liquidity_bps);
    let fees: u128 = team_fee as u128 + founder_fee as u128 + liquidity_fee as u128;
    let user_receives: u64 = if fees <= value as u128 {
        (value as u128 - fees) as u64
    } else {
        0
    };
    Settlement { team_fee, founder_fee, liquidity_fee, user_receives }
}

/// Where no fee of a triple reaches a quarter and the three together are at
/// most a half, the three rounded fees together are at most the value: the
/// user receives exactly what they leave.
pub proof fn lemma_moderate_fees_settle_exactly(value: u64, config: LockFeeConfig)
    requires
        config.team_bps < 2_500,
        config.founder_bps < 2_500,
        config.liquidity_bps < 2_500,
        config.team_bps + config.founder_bps + config.liquidity_bps <= 5_000,
    ensures
        rounded_share(value, config.team_bps) + rounded_share(value, config.founder_bps)
            + rounded_share(value, config.liquidity_bps) <= value,
        ({
            let s = settlement_of(value, config);
            s.team_fee + s.founder_fee + s.liquidity_fee + s.user_receives == value
        }),
{
    lemma_rounded_share_bounds(value, config.team_bps, config.team_bps);
    lemma_rounded_share_bounds(value, config.founder_bps, config.founder_bps);
    lemma_rounded_share_bounds(value, config.liquidity_bps, config.liquidity_bps);
    let t: int = value * config.team_bps;
    let f: int = value * config.founder_bps;
    let l: int = value * config.liquidity_bps;
    assert(0 <= t <= value * 2_499 && 0 <= f <= value * 2_499 && 0 <= l <= value * 2_499 && t + f
        + l <= value * 5_000) by (nonlinear_arith)
        requires
            t == value * config.team_bps,
            f == value * config.founder_bps,
            l == value * config.liquidity_bps,
            config.team_bps < 2_500,
            config.founder_bps < 2_500,
            config.liquidity_bps < 2_500,
            config.team_bps + config.founder_bps + config.liquidity_bps <= 5_000,
    ;
}

/// Under every triple of the schedule, with or without the early-unlock
/// penalty, and under the immediate triple, the user receives exactly what
/// the three rounded fees leave of the value.
pub proof fn lemma_schedule_settles_exactly(value: u64, lock_days: u64)
    ensures
        ({
            let s = settlement_of(value, lock_fee_config(lock_days));
            s.team_fee + s.founder_fee + s.liquidity_fee + s.user_receives == value
        }),
        ({
            let s = settlement_of(value, lock_fee_config(lock_days).penalized());
            s.team_fee + s.founder_fee + s.liquidity_fee + s.user_receives == value
        }),
        ({
            let s = settlement_of(value, immediate_fee_config());
            s.team_fee + s.founder_fee + s.liquidity_fee + s.user_receives == value
        }),
{
    lemma_moderate_fees_settle_exactly(value, lock_fee_config(lock_days));
    lemma_moderate_fees_settle_exactly(value, lock_fee_config(lock_days).penalized());
    lemma_moderate_fees_settle_exactly(value, immediate_fee_config());
}

/// Unlocking early never costs the team: for one value and one lock period
/// the team's fee with the penalty is at least its fee without, the other
/// two fees are the same, and the user receives no more.
pub proof fn lemma_early_unlock_costs_user(value: u64, lock_days: u64)
    ensures
        settlement_of(value, lock_fee_config(lock_days).penalized()).team_fee >= settlement_of(
            value,
            lock_fee_config(lock_days),
        ).team_fee,
        settlement_of(value, lock_fee_config(lock_days).penalized()).founder_fee == settlement_of(
            value,
            lock_fee_config(lock_days),
        ).founder_fee,
        settlement_of(value, lock_fee_config(lock_days).penalized()).liquidity_fee
            == settlement_of(value, lock_fee_config(lock_days)).liquidity_fee,
        settlement_of(value, lock_fee_config(lock_days).penalized()).user_receives
            <= settlement_of(value, lock_fee_config(lock_days)).user_receives,
{
    let plain = lock_fee_config(lock_days);
    let early = plain.penalized();
    lemma_moderate_fees_settle_exactly(value, plain);
    lemma_moderate_fees_settle_exactly(value, early);
    lemma_rounded_share_bounds(value, plain.team_bps, early.team_bps);
    lemma_rounded_share_bounds(value, early.team_bps, early.team_bps);
    lemma_rounded_share_bounds(value, plain.founder_bps, plain.founder_bps);
    lemma_rounded_share_bounds(value, plain.liquidity_bps, plain.liquidity_bps);
}

} // verus!
