//! Tests of the pure pricing engine: spot price and the two quotes.

use openclaw::state::{AccountId, BondingCurve, CurveStatus};

fn acct(n: u128) -> AccountId {
    AccountId { hi: n, lo: n.wrapping_mul(7) }
}

fn curve(virtual_sol: u64, virtual_tokens: u64, real_sol: u64, real_tokens: u64) -> BondingCurve {
    BondingCurve {
        mint: acct(1),
        creator: acct(2),
        virtual_sol_reserves: virtual_sol,
        virtual_token_reserves: virtual_tokens,
        real_sol_reserves: real_sol,
        real_token_reserves: real_tokens,
        tokens_sold: 0,
        status: CurveStatus::Active,
        created_at: 0,
    }
}

#[test]
fn spot_price_is_scaled_reserve_ratio() {
    let c = curve(30, 1000, 0, 1000);
    assert_eq!(c.get_price(), 30 * 1_000_000 / 1000);
}

#[test]
fn spot_price_rounds_down() {
    let c = curve(1, 3, 0, 3);
    assert_eq!(c.get_price(), 333_333);
}

#[test]
fn spot_price_zero_tokens_is_zero() {
    let c = curve(30, 0, 0, 0);
    assert_eq!(c.get_price(), 0);
}

#[test]
fn quote_buy_takes_fee_from_input() {
    // fee = 1000 * 100 / 10000 = 10; k = 30000; new_sol = 1020;
    // new_tokens = 30000 / 1020 = 29; tokens_out = 1000 - 29 = 971
    let c = curve(30, 1000, 0, 1000);
    assert_eq!(c.get_tokens_out(1000, 100), Ok((971, 10)));
}

#[test]
fn quote_buy_fee_rounds_down() {
    // fee = 999 * 100 / 10000 = 9 (truncated from 9.99)
    let c = curve(30, 1000, 0, 1000);
    let (_, fee) = c.get_tokens_out(999, 100).unwrap();
    assert_eq!(fee, 9);
}

#[test]
fn quote_buy_zero_fee() {
    // k = 30000; new_sol = 40; new_tokens = 750; tokens_out = 250
    let c = curve(30, 1000, 0, 1000);
    assert_eq!(c.get_tokens_out(10, 0), Ok((250, 0)));
}

#[test]
fn quote_buy_small_amount_under_fee_threshold() {
    // fee = 10 * 100 / 10000 = 0: amounts below 100 lamports pay no fee
    let c = curve(30, 1000, 0, 1000);
    assert_eq!(c.get_tokens_out(10, 100), Ok((250, 0)));
}

#[test]
fn quote_sell_takes_fee_from_output() {
    // k = 1020 * 29 = 29580; new_tokens = 1000; new_sol = 29;
    // gross = 991; fee = 991 * 100 / 10000 = 9; sol_out = 982
    let c = curve(1020, 29, 990, 29);
    assert_eq!(c.get_sol_out(971, 100), Ok((982, 9)));
}

#[test]
fn quote_sell_zero_fee() {
    // k = 40 * 750 = 30000; new_tokens = 1000; new_sol = 30; gross = 10
    let c = curve(40, 750, 10, 750);
    assert_eq!(c.get_sol_out(250, 0), Ok((10, 0)));
}

#[test]
fn quote_sell_gross_under_fee_threshold() {
    // gross = 10; fee = 10 * 100 / 10000 = 0
    let c = curve(40, 750, 10, 750);
    assert_eq!(c.get_sol_out(250, 100), Ok((10, 0)));
}

#[test]
fn quote_sell_after_buy_matches_constant_product() {
    // buying 7 on a 100/100 curve: k = 10000; new_sol = 107;
    // new_tokens = 10000 / 107 = 93 (truncated); tokens_out = 7
    let c = curve(100, 100, 0, 100);
    assert_eq!(c.get_tokens_out(7, 0), Ok((7, 0)));
    // selling 7 back on the updated curve: k = 107 * 93 = 9951;
    // new_tokens = 100; new_sol = 99; gross = 8 — one more than was paid
    // in, which the real reserves (7) cannot cover: the sell operation
    // itself refuses such a payout (see the lifecycle tests)
    let c2 = curve(107, 93, 7, 93);
    assert_eq!(c2.get_sol_out(7, 0), Ok((8, 0)));
}
