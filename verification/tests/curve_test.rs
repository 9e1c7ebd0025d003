use simple_token::curve::{
    quote_buy, quote_lock, quote_mint, value_at_spot, BUY_GROWTH_RATE, PRICE_SCALE,
};

#[test]
fn price_scale_has_eighteen_decimals() {
    assert_eq!(PRICE_SCALE, 10u128.pow(18));
    assert_eq!(BUY_GROWTH_RATE * 100, PRICE_SCALE * 95);
}

#[test]
fn buy_quote_at_launch() {
    assert_eq!(quote_buy(3_000, 1_000_000_000, 1_000_000_000, 900_000_000), 291_891_918_188_419);
}

#[test]
fn buy_quote_in_a_grown_market() {
    assert_eq!(
        quote_buy(5_000_000_000, 2_000_000_000_000, 1_000_000_000, 900_000_000),
        358_481_012_658
    );
}

#[test]
fn buy_quote_is_the_mint_quote_with_growth_of_95_percent() {
    assert_eq!(
        quote_buy(5_000_000_000, 2_000_000_000_000, 1_000_000_001, 900_000_001),
        quote_mint(
            5_000_000_000,
            2_000_000_000_000,
            2_000_000_000_000,
            900_000_001,
            950_000_000_950_000_000_000_000_000
        )
    );
    assert_eq!(quote_buy(5_000_000_000, 2_000_000_000_000, 1_000_000_001, 900_000_001), 358_481_013_058);
}

#[test]
fn buy_quote_without_supply_mints_nothing() {
    assert_eq!(quote_buy(3_000, 0, 1_000, 900), 0);
}

#[test]
fn buy_quote_without_liquidity_is_unbounded() {
    assert_eq!(quote_buy(0, 1_000_000_000, 1_000, 900), u64::MAX);
    assert_eq!(quote_buy(0, 1_000_000_000, 0, 0), 0);
}

#[test]
fn lock_quote_in_a_grown_market() {
    assert_eq!(quote_lock(5_000_000_000, 2_000_000_000_000, 932_500_000), 373_000_000_000);
}

#[test]
fn lock_quote_without_supply_mints_nothing() {
    assert_eq!(quote_lock(3_000, 0, 900), 0);
}

#[test]
fn spot_value_rounds_to_nearest() {
    assert_eq!(value_at_spot(1_000_000_000, 5_000_000_000, 2_000_000_000_000), 2_500_000);
    assert_eq!(value_at_spot(3, 5, 2), 8);
    assert_eq!(value_at_spot(1, 1, 2), 1);
    assert_eq!(value_at_spot(1, 1, 3), 0);
}

#[test]
fn spot_value_takes_an_empty_supply_for_one_and_is_capped() {
    assert_eq!(value_at_spot(7, 3, 0), 21);
    assert_eq!(value_at_spot(u64::MAX, u64::MAX, 1), u64::MAX);
    assert_eq!(value_at_spot(u64::MAX, u64::MAX, 0), u64::MAX);
    assert_eq!(value_at_spot(u64::MAX, u64::MAX, u64::MAX), u64::MAX);
    assert_eq!(value_at_spot(0, u64::MAX, 5), 0);
}

#[test]
fn nothing_paid_mints_nothing() {
    assert_eq!(quote_buy(5_000_000_000, 2_000_000_000_000, 0, 0), 0);
    assert_eq!(quote_lock(5_000_000_000, 2_000_000_000_000, 0), 0);
    assert_eq!(quote_lock(0, 0, 0), 0);
}

#[test]
fn the_whole_supply_is_worth_the_reserve() {
    assert_eq!(value_at_spot(2_000_000_000_000, 5_000_000_000, 2_000_000_000_000), 5_000_000_000);
    assert_eq!(value_at_spot(u64::MAX, 17, u64::MAX), 17);
}
