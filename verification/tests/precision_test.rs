use simple_token::curve::{quote_buy, quote_lock, value_at_spot};
use simple_token::fees::{allocate, get_immediate_fee_config, settle};
use simple_token::get_lock_fee_config;

fn close(fixed: u64, float: f64) -> bool {
    let diff = (fixed as f64 - float).abs();
    diff <= 1.0 + float.abs() * 1e-9
}

fn float_buy(liquidity: u64, supply: u64, amount: u64, net: u64) -> f64 {
    let price_start = liquidity as f64 / supply as f64;
    let estimated_tokens = net as f64 / price_start;
    let price_end =
        (liquidity as f64 + amount as f64 * 0.95) / (supply as f64 + estimated_tokens);
    let avg_price = (price_start + price_end) / 2.0;
    (net as f64 / avg_price).floor()
}

fn float_lock(liquidity: u64, supply: u64, net: u64) -> f64 {
    let price_start = liquidity as f64 / (supply as f64).max(1.0);
    let estimated_tokens = net as f64 / price_start;
    let price_end = (liquidity as f64 + net as f64) / (supply as f64 + estimated_tokens);
    let avg_price = (price_start + price_end) / 2.0;
    (net as f64 / avg_price).floor()
}

fn float_value(tokens: u64, liquidity: u64, supply: u64) -> f64 {
    let price = (liquidity as f64 / 1e6) / (supply.max(1) as f64 / 1e9);
    (tokens as f64 / 1e9) * price * 1e6
}

const MARKETS: [(u64, u64); 5] = [
    (3_000, 1_000_000_000),
    (5_000_000_000, 2_000_000_000_000),
    (123_456_789_012, 987_654_321_098_765),
    (40_000_000_000_000, 3_000_000_000_000_000),
    (1_000_000, 1_000_000),
];

const AMOUNTS: [u64; 6] = [1, 999, 1_000_000, 1_000_000_000, 73_500_000_001, 5_000_000_000_000];

#[test]
fn buy_quotes_agree_with_double_precision() {
    for (liquidity, supply) in MARKETS {
        for amount in AMOUNTS {
            let net = allocate(amount, get_immediate_fee_config()).usdc_for_tokens;
            let fixed = quote_buy(liquidity, supply, amount, net);
            let float = float_buy(liquidity, supply, amount, net);
            assert!(close(fixed, float), "{} {} {}: {} {}", liquidity, supply, amount, fixed, float);
        }
    }
}

#[test]
fn lock_quotes_agree_with_double_precision() {
    for (liquidity, supply) in MARKETS {
        for amount in AMOUNTS {
            for days in [3u64, 7, 14, 31, 60, 90] {
                let net = allocate(amount, get_lock_fee_config(days)).usdc_for_tokens;
                let fixed = quote_lock(liquidity, supply, net);
                let float = float_lock(liquidity, supply, net);
                assert!(close(fixed, float), "{} {} {}: {} {}", liquidity, supply, net, fixed, float);
            }
        }
    }
}

#[test]
fn spot_values_and_fees_agree_with_double_precision() {
    for (liquidity, supply) in MARKETS {
        for tokens in AMOUNTS {
            if tokens > supply {
                continue;
            }
            let value = value_at_spot(tokens, liquidity, supply);
            let float = float_value(tokens, liquidity, supply);
            assert!(close(value, float), "{} {} {}: {} {}", liquidity, supply, tokens, value, float);
            let s = settle(value, get_immediate_fee_config());
            assert!(close(s.team_fee, (0.02 * float).round()));
            assert!(close(s.founder_fee, (0.005 * float).round()));
            assert!(close(s.liquidity_fee, (0.075 * float).round()));
            assert!(close(s.user_receives + s.team_fee + s.founder_fee + s.liquidity_fee, float));
        }
    }
}
