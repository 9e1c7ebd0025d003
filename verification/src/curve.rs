//! Pricing against the liquidity reserve.
//!
//! The price of a token is the reserve's balance over the token's supply,
//! both read once when an operation starts. Prices are fixed-point integers
//! with eighteen decimals; every quotient is rounded down unless said
//! otherwise. A quotient by zero stands for an unbounded quantity and is the
//! largest number the arithmetic holds, except that zero over zero is zero.

use vstd::prelude::*;

verus! {

/// One, as a fixed-point price.
pub const PRICE_SCALE: u128 = 1_000_000_000_000_000_000;

/// 95%, as a fixed-point quantity.
pub const BUY_GROWTH_RATE: u128 = 950_000_000_000_000_000;

/// The quotient of two quantities, rounded down; unbounded where only the
/// denominator is zero.
pub open spec fn ratio(numerator: int, denominator: int) -> int {
    if denominator != 0 {
        numerator / denominator
    } else if numerator == 0 {
        0
    } else {
        u128::MAX as int
    }
}

/// A quantity held to what the arithmetic holds.
pub open spec fn bounded(quantity: int) -> int {
    if quantity > u128::MAX {
        u128::MAX as int
    } else {
        quantity
    }
}

/// The tokens minted for `net` payment units at the average of two prices:
/// the price now, `liquidity` over `start_supply`, and the price there would
/// be with `growth` more in the reserve and, added to `supply`, the tokens
/// that `net` buys at the price now. `growth` is a fixed-point quantity of
/// payment units. At most `u64::MAX`.
pub open spec fn curve_quote(
    liquidity: u64,
    start_supply: u64,
    supply: u64,
    net: u64,
    growth: int,
) -> int {
    let price_start = ratio(liquidity * PRICE_SCALE, start_supply as int);
    let estimated_tokens = ratio(net * PRICE_SCALE, price_start);
    let price_end = ratio(
        liquidity * PRICE_SCALE + growth,
        bounded(supply + estimated_tokens),
    );
    let avg_price = (price_start + price_end) / 2;
    let minted = ratio(net * PRICE_SCALE, avg_price);
    if minted > u64::MAX {
        u64::MAX as int
    } else {
        minted
    }
}

/// The growth of the reserve that an immediate buy of `amount` is priced
/// with: 95% of the payment, as a fixed-point quantity.
pub open spec fn buy_growth(amount: u64) -> int {
    amount * BUY_GROWTH_RATE
}

/// The tokens minted by an immediate buy that pays `amount`, of which `net`
/// goes to the curve.
pub open spec fn buy_quote(liquidity: u64, supply: u64, amount: u64, net: u64) -> int {
    curve_quote(liquidity, supply, supply, net, buy_growth(amount))
}

/// The tokens minted by a lock purchase of which `net` goes to the curve.
/// The price now is taken over a supply of at least one, and the reserve
/// grows by `net` itself.
pub open spec fn lock_quote(liquidity: u64, supply: u64, net: u64) -> int {
    curve_quote(
        liquidity,
        if supply == 0 {
            1
        } else {
            supply
        },
        supply,
        net,
        net * PRICE_SCALE,
    )
}

/// What `tokens` are worth at the spot price, in payment units: `tokens`
/// times `liquidity` over a supply of at least one, rounded to the nearest
/// unit, halves up. At most `u64::MAX`.
pub open spec fn spot_value(tokens: u64, liquidity: u64, supply: u64) -> int {
    let divisor: int = if supply == 0 {
        1
    } else {
        supply as int
    };
    let product: int = tokens * liquidity;
    let rounded = product / divisor + if 2 * (product % divisor) >= divisor {
        1int
    } else {
        0int
    };
    if rounded > u64::MAX {
        u64::MAX as int
    } else {
        rounded
    }
}

/// The value at the spot price is a quantity of payment units.
pub proof fn lemma_spot_value_bounds(tokens: u64, liquidity: u64, supply: u64)
    ensures
        0 <= spot_value(tokens, liquidity, supply) <= u64::MAX,
{
    let divisor: int = if supply == 0 {
        1
    } else {
        supply as int
    };
    let product: int = tokens * liquidity;
    assert(0 <= product) by (nonlinear_arith)
        requires
            product == tokens * liquidity,
    ;
    assert(0 <= product / divisor) by (nonlinear_arith)
        requires
            0 <= product,
            0 < divisor,
    ;
}

/// All the tokens there are, are worth all the reserve holds.
pub proof fn lemma_whole_supply_is_worth_the_reserve(liquidity: u64, supply: u64)
    requires
        supply > 0,
    ensures
        spot_value(supply, liquidity, supply) == liquidity,
{
    let product: int = supply * liquidity;
    assert(product / (supply as int) == liquidity && product % (supply as int) == 0)
        by (nonlinear_arith)
        requires
            product == supply * liquidity,
            supply > 0,
            liquidity >= 0,
    ;
}

/// Tokens that are part of the supply are worth no more than the reserve
/// holds.
pub proof fn lemma_value_within_reserve(tokens: u64, liquidity: u64, supply: u64)
    requires
        tokens <= supply,
    ensures
        spot_value(tokens, liquidity, supply) <= liquidity,
{
    let divisor: int = if supply == 0 {
        1
    } else {
        supply as int
    };
    let product: int = tokens * liquidity;
    if tokens == 0 || liquidity == 0 {
        assert(product == 0) by (nonlinear_arith)
            requires
                product == tokens * liquidity,
                tokens == 0 || liquidity == 0,
        ;
        assert(0int / divisor == 0 && 0int % divisor == 0) by (nonlinear_arith)
            requires
                divisor > 0,
        ;
    } else if tokens == supply {
        lemma_whole_supply_is_worth_the_reserve(liquidity, supply);
    } else {
        assert(0 <= product < liquidity * divisor) by (nonlinear_arith)
            requires
                product == tokens * liquidity,
                0 < tokens < divisor,
                liquidity > 0,
        ;
        assert(product / divisor < liquidity) by (nonlinear_arith)
            requires
                0 <= product < liquidity * divisor,
                divisor > 0,
        ;
    }
}

fn divide(numerator: u128, denominator: u128) -> (quotient: u128)
    ensures
        quotient == ratio(numerator as int, denominator as int),
{
    if denominator != 0 {
        numerator / denominator
    } else if numerator == 0 {
        0
    } else {
        u128::MAX
    }
}

/// Computes the tokens minted for `net` payment units at the average of the
/// price now and the price after the trade. `growth`, a fixed-point
/// quantity, is at most what fits the reserve.
pub fn quote_mint(
    liquidity: u64,
    start_supply: u64,
    supply: u64,
    net: u64,
    growth: u128,
) -> (minted: u64)
    requires
        growth <= u64::MAX * PRICE_SCALE,
    ensures
        minted == curve_quote(liquidity, start_supply, supply, net, growth as int),
        net == 0 ==> minted == 0,
{
    let price_start: u128 = divide(liquidity as u128 * PRICE_SCALE, start_supply as u128);
    let estimated_tokens: u128 = divide(net as u128 * PRICE_SCALE, price_start);
    let end_supply: u128 = if estimated_tokens > u128::MAX - supply as u128 {
        u128::MAX
    } else {
        supply as u128 + estimated_tokens
    };
    let price_end: u128 = divide(liquidity as u128 * PRICE_SCALE + growth, end_supply);
    let avg_price: u128 = price_start / 2 + price_end / 2 + (price_start % 2 + price_end % 2) / 2;
    let minted: u128 = divide(net as u128 * PRICE_SCALE, avg_price);
    if minted > u64::MAX as u128 {
        u64::MAX
    } else {
        minted as u64
    }
}

/// Computes the tokens minted by an immediate buy.
pub fn quote_buy(liquidity: u64, supply: u64, amount: u64, net: u64) -> (minted: u64)
    ensures
        minted == buy_quote(liquidity, supply, amount, net),
        net == 0 ==> minted == 0,
{
    quote_mint(liquidity, supply, supply, net, amount as u128 * BUY_GROWTH_RATE)
}

/// Computes the tokens minted by a lock purchase.
pub fn quote_lock(liquidity: u64, supply: u64, net: u64) -> (minted: u64)
    ensures
        minted == lock_quote(liquidity, supply, net),
        net == 0 ==> minted == 0,
{
    let start_supply: u64 = if supply == 0 {
        1
    } else {
        supply
    };
    quote_mint(liquidity, start_supply, supply, net, net as u128 * PRICE_SCALE)
}

/// Computes what `tokens` are worth at the spot price.
pub fn value_at_spot(tokens: u64, liquidity: u64, supply: u64) -> (value: u64)
    ensures
        value == spot_value(tokens, liquidity, supply),
        tokens == 0 || liquidity == 0 ==> value == 0,
        tokens == supply && supply > 0 ==> value == liquidity,
{
    let divisor: u128 = if supply == 0 {
        1
    } else {
        supply as u128
    };
    proof {
        assert(0 <= tokens * liquidity <= u64::MAX * u64::MAX) by (nonlinear_arith)
            requires
                0 <= tokens <= u64::MAX,
                0 <= liquidity <= u64::MAX,
        ;
        if supply > 0 {
            lemma_whole_supply_is_worth_the_reserve(liquidity, supply);
        }
        if tokens == 0 || liquidity == 0 {
            assert(tokens * liquidity == 0) by (nonlinear_arith)
                requires
                    tokens == 0 || liquidity == 0,
            ;
            assert(0int / (divisor as int) == 0 && 0int % (divisor as int) == 0)
                by (nonlinear_arith)
                requires
                    divisor > 0,
            ;
        }
    }
    let product: u128 = tokens as u128 * liquidity as u128;
    let quotient: u128 = product / divisor;
    let remainder: u128 = product % divisor;
    let rounded: u128 = if 2 * remainder >= divisor {
        quotient + 1
    } else {
        quotient
    };
    if rounded > u64::MAX as u128 {
        u64::MAX
    } else {
        rounded as u64
    }
}

} // verus!
