//! Data model of the protocol: the singleton configuration, the per-token
//! bonding curve, and the pure pricing engine over a curve's reserves.

use vstd::prelude::*;
use crate::error::OpenClawError;
use vstd::arithmetic::div_mod::{
    lemma_div_is_ordered_by_denominator, lemma_div_multiples_vanish, lemma_div_of0,
    lemma_div_pos_is_pos,
};
use vstd::arithmetic::mul::{lemma_mul_by_zero_is_zero, lemma_mul_nonnegative, lemma_mul_upper_bound};

verus! {

/// Fixed integer scale used to express a spot price in smallest currency
/// units per whole token-equivalent.
pub const PRICE_SCALE: u64 = 1_000_000;

/// Denominator of the basis-point fee scale.
pub const FEE_DENOMINATOR: u64 = 10_000;

/// Business cap on the configurable fee rate: ten percent.
pub const MAX_FEE_BPS: u16 = 1_000;

/// A 32-byte ledger identity (an account address), held as two 128-bit
/// words. The engine only ever compares identities for equality; deriving
/// and verifying the addresses themselves is the hosting runtime's job.
#[derive(Clone, Copy, Debug, PartialEq, Eq, Structural)]
pub struct AccountId {
    pub hi: u128,
    pub lo: u128,
}

/// Trading status of a curve. `Migrated` is terminal: no operation ever
/// returns a curve from `Migrated` to `Active`.
#[derive(Clone, Copy, Debug, PartialEq, Eq, Structural)]
pub enum CurveStatus {
    Active,
    Migrated,
}

/// Global configuration of the protocol: a singleton record, created once
/// and mutated only by its authority and by trade-volume accounting.
#[derive(Clone, Copy, Debug, PartialEq, Eq, Structural)]
pub struct GlobalConfig {
    /// Identity permitted to mutate this configuration.
    pub authority: AccountId,
    /// Identity credited with trading fees.
    pub fee_recipient: AccountId,
    /// Platform fee in basis points (1% = 100).
    pub fee_bps: u16,
    /// Real currency reserve (in lamports) a curve needs before it may migrate.
    pub migration_threshold: u64,
    /// Seed value for every new curve's virtual currency reserves.
    pub initial_virtual_sol: u64,
    /// Seed value for every new curve's virtual token reserves.
    pub initial_virtual_tokens: u64,
    /// Number of tokens launched so far.
    pub total_tokens: u64,
    /// Cumulative trading volume (in lamports).
    pub total_volume: u64,
}

/// Bonding-curve state of one launched token. Virtual reserves exist only
/// for pricing; real reserves are the balances the curve actually custodies.
#[derive(Clone, Copy, Debug, PartialEq, Eq, Structural)]
pub struct BondingCurve {
    /// The token's mint identity.
    pub mint: AccountId,
    /// The identity that created the token.
    pub creator: AccountId,
    /// Virtual currency reserves (pricing only).
    pub virtual_sol_reserves: u64,
    /// Virtual token reserves (pricing only).
    pub virtual_token_reserves: u64,
    /// Currency actually held by the curve.
    pub real_sol_reserves: u64,
    /// Tokens actually held by the curve.
    pub real_token_reserves: u64,
    /// Cumulative tokens distributed since creation.
    pub tokens_sold: u64,
    /// Whether the curve is still trading or is frozen.
    pub status: CurveStatus,
    /// Creation timestamp (seconds).
    pub created_at: i64,
}

/// The fee the machine charges on `amount` at rate `fee_bps`:
/// `amount * fee_bps / 10000`, truncated into a 64-bit word exactly as the
/// double-width arithmetic of the engine truncates it.
pub open spec fn fee_of(amount: u64, fee_bps: u16) -> u64 {
    ((amount * fee_bps) / (FEE_DENOMINATOR as int)) as u64
}

/// Saturating subtraction on 64-bit words: zero when `b` exceeds `a`.
pub open spec fn sub_or_zero(a: u64, b: u64) -> u64 {
    if b >= a {
        0u64
    } else {
        (a - b) as u64
    }
}

/// Saturating addition on 64-bit words: clamped at `u64::MAX`.
pub open spec fn add_capped(a: u64, b: u64) -> u64 {
    if a + b > u64::MAX {
        u64::MAX
    } else {
        (a + b) as u64
    }
}

/// The spot price of a curve: `virtual_sol_reserves * PRICE_SCALE /
/// virtual_token_reserves`, truncated to 64 bits, and zero when the curve
/// holds no virtual tokens.
pub open spec fn spot_price(c: BondingCurve) -> u64 {
    if c.virtual_token_reserves == 0 {
        0u64
    } else {
        ((c.virtual_sol_reserves * PRICE_SCALE) / (c.virtual_token_reserves as int)) as u64
    }
}

/// A buy quote is well defined whenever the divisor of the constant-product
/// step, the virtual currency reserves plus the net currency paid in, is
/// positive.
pub open spec fn buy_quote_enabled(c: BondingCurve, sol_in: u64, fee_bps: u16) -> bool {
    c.virtual_sol_reserves + sub_or_zero(sol_in, fee_of(sol_in, fee_bps)) > 0
}

/// Tokens handed out for `sol_in` currency at fee rate `fee_bps`: the fee
/// comes off the input, the remainder joins the virtual currency reserves,
/// and the token side of the constant product shrinks to match.
pub open spec fn buy_quote_tokens(c: BondingCurve, sol_in: u64, fee_bps: u16) -> u64 {
    let net = sub_or_zero(sol_in, fee_of(sol_in, fee_bps));
    let k = c.virtual_sol_reserves * c.virtual_token_reserves;
    (c.virtual_token_reserves - k / (c.virtual_sol_reserves + net)) as u64
}

/// A sell quote is well defined whenever the virtual token reserves plus
/// the tokens paid in are positive.
pub open spec fn sell_quote_enabled(c: BondingCurve, tokens_in: u64) -> bool {
    c.virtual_token_reserves + tokens_in > 0
}

/// Gross currency released for `tokens_in` tokens, before the fee: the
/// tokens join the virtual token reserves and the currency side of the
/// constant product shrinks to match.
pub open spec fn sell_quote_gross(c: BondingCurve, tokens_in: u64) -> u64 {
    let k = c.virtual_sol_reserves * c.virtual_token_reserves;
    (c.virtual_sol_reserves - k / (c.virtual_token_reserves + tokens_in)) as u64
}

/// The fee taken out of a sell's gross currency: unlike a buy, the fee
/// comes off the output.
pub open spec fn sell_quote_fee(c: BondingCurve, tokens_in: u64, fee_bps: u16) -> u64 {
    fee_of(sell_quote_gross(c, tokens_in), fee_bps)
}

/// Net currency paid to the seller: the gross amount less the fee,
/// clamped at zero.
pub open spec fn sell_quote_net(c: BondingCurve, tokens_in: u64, fee_bps: u16) -> u64 {
    sub_or_zero(sell_quote_gross(c, tokens_in), sell_quote_fee(c, tokens_in, fee_bps))
}

/// Supply conservation: what the curve still holds plus what it has
/// distributed is the seeded token supply.
pub open spec fn token_supply_conserved(c: BondingCurve, initial_tokens: u64) -> bool {
    c.real_token_reserves + c.tokens_sold == initial_tokens
}

/// Real reserves never exceed the virtual reserves they are accounted
/// within; the difference is the virtual seed.
pub open spec fn reserves_backed(c: BondingCurve) -> bool {
    &&& c.real_sol_reserves <= c.virtual_sol_reserves
    &&& c.real_token_reserves <= c.virtual_token_reserves
}

/// The constant-product value `k` of a curve's virtual reserves.
pub open spec fn curve_k(c: BondingCurve) -> int {
    c.virtual_sol_reserves * c.virtual_token_reserves
}

/// The token side of a buy quote stays within the virtual token reserves,
/// so its 64-bit truncation is exact.
pub proof fn lemma_buy_quote(c: BondingCurve, sol_in: u64, fee_bps: u16)
    requires
        buy_quote_enabled(c, sol_in, fee_bps),
    ensures
        ({
            let net = sub_or_zero(sol_in, fee_of(sol_in, fee_bps));
            let k = curve_k(c);
            let remaining = k / (c.virtual_sol_reserves + net);
            &&& 0 <= remaining <= c.virtual_token_reserves
            &&& buy_quote_tokens(c, sol_in, fee_bps) == c.virtual_token_reserves - remaining
        }),
{
    let vs = c.virtual_sol_reserves as int;
    let vt = c.virtual_token_reserves as int;
    let net = sub_or_zero(sol_in, fee_of(sol_in, fee_bps)) as int;
    let k = vs * vt;
    lemma_mul_nonnegative(vs, vt);
    lemma_div_pos_is_pos(k, vs + net);
    if vs > 0 {
        lemma_div_is_ordered_by_denominator(k, vs, vs + net);
        lemma_div_multiples_vanish(vt, vs);
    } else {
        lemma_mul_by_zero_is_zero(vt);
        lemma_div_of0(vs + net);
    }
}

/// The currency side of a sell quote stays within the virtual currency
/// reserves, so its 64-bit truncation is exact.
pub proof fn lemma_sell_quote(c: BondingCurve, tokens_in: u64)
    requires
        sell_quote_enabled(c, tokens_in),
    ensures
        ({
            let k = curve_k(c);
            let remaining = k / (c.virtual_token_reserves + tokens_in);
            &&& 0 <= remaining <= c.virtual_sol_reserves
            &&& sell_quote_gross(c, tokens_in) == c.virtual_sol_reserves - remaining
        }),
{
    let vs = c.virtual_sol_reserves as int;
    let vt = c.virtual_token_reserves as int;
    let k = vs * vt;
    lemma_mul_nonnegative(vs, vt);
    lemma_div_pos_is_pos(k, vt + tokens_in);
    if vt > 0 {
        lemma_div_is_ordered_by_denominator(k, vt, vt + tokens_in);
        assert(vs * vt == vt * vs) by (nonlinear_arith);
        lemma_div_multiples_vanish(vs, vt);
    } else {
        lemma_mul_by_zero_is_zero(vs);
        lemma_div_of0(vt + tokens_in);
    }
}

impl BondingCurve {
    /// The current token price in smallest currency units per whole
    /// token-equivalent, `PRICE_SCALE` times the currency/token reserve
    /// ratio, or zero when the curve holds no virtual tokens.
    pub fn get_price(&self) -> (price: u64)
        ensures
            price == spot_price(*self),
    {
        if self.virtual_token_reserves == 0 {
            return 0;
        }
        proof {
            lemma_mul_upper_bound(
                self.virtual_sol_reserves as int,
                u64::MAX as int,
                PRICE_SCALE as int,
                PRICE_SCALE as int,
            );
        }
        let scaled: u128 = (self.virtual_sol_reserves as u128) * (PRICE_SCALE as u128);
        let q: u128 = scaled / (self.virtual_token_reserves as u128);
        #[verifier::truncate] (q as u64)
    }

    /// Quote a buy: the tokens released for `sol_in` currency at rate
    /// `fee_bps`, together with the fee taken off the input. Always
    /// succeeds; the quote performs no mutation.
    pub fn get_tokens_out(&self, sol_in: u64, fee_bps: u16) -> (r: Result<
        (u64, u64),
        OpenClawError,
    >)
        requires
            buy_quote_enabled(*self, sol_in, fee_bps),
        ensures
            r == Ok::<(u64, u64), OpenClawError>(
                (buy_quote_tokens(*self, sol_in, fee_bps), fee_of(sol_in, fee_bps)),
            ),
    {
        proof {
            lemma_mul_upper_bound(sol_in as int, u64::MAX as int, fee_bps as int, u16::MAX as int);
        }
        let fee_wide: u128 = (sol_in as u128) * (fee_bps as u128) / (FEE_DENOMINATOR as u128);
        let fee: u64 = #[verifier::truncate] (fee_wide as u64);
        let sol_after_fee: u64 = if fee >= sol_in {
            0
        } else {
            sol_in - fee
        };
        proof {
            lemma_mul_upper_bound(
                self.virtual_sol_reserves as int,
                u64::MAX as int,
                self.virtual_token_reserves as int,
                u64::MAX as int,
            );
            lemma_buy_quote(*self, sol_in, fee_bps);
        }
        let k: u128 = (self.virtual_sol_reserves as u128) * (self.virtual_token_reserves as u128);
        let new_sol: u128 = (self.virtual_sol_reserves as u128) + (sol_after_fee as u128);
        let new_tokens: u128 = k / new_sol;
        let tokens_out: u64 = ((self.virtual_token_reserves as u128) - new_tokens) as u64;
        Ok((tokens_out, fee))
    }

    /// Quote a sell: the net currency released for `tokens_in` tokens at
    /// rate `fee_bps`, together with the fee taken off the gross output.
    /// Always succeeds; the quote performs no mutation.
    pub fn get_sol_out(&self, tokens_in: u64, fee_bps: u16) -> (r: Result<
        (u64, u64),
        OpenClawError,
    >)
        requires
            sell_quote_enabled(*self, tokens_in),
        ensures
            r == Ok::<(u64, u64), OpenClawError>(
                (
                    sell_quote_net(*self, tokens_in, fee_bps),
                    sell_quote_fee(*self, tokens_in, fee_bps),
                ),
            ),
    {
        proof {
            lemma_mul_upper_bound(
                self.virtual_sol_reserves as int,
                u64::MAX as int,
                self.virtual_token_reserves as int,
                u64::MAX as int,
            );
            lemma_sell_quote(*self, tokens_in);
        }
        let k: u128 = (self.virtual_sol_reserves as u128) * (self.virtual_token_reserves as u128);
        let new_tokens: u128 = (self.virtual_token_reserves as u128) + (tokens_in as u128);
        let new_sol: u128 = k / new_tokens;
        let gross_wide: u128 = (self.virtual_sol_reserves as u128) - new_sol;
        let gross: u64 = gross_wide as u64;
        proof {
            lemma_mul_upper_bound(gross as int, u64::MAX as int, fee_bps as int, u16::MAX as int);
        }
        let fee_wide: u128 = (gross as u128) * (fee_bps as u128) / (FEE_DENOMINATOR as u128);
        let fee: u64 = #[verifier::truncate] (fee_wide as u64);
        let sol_out: u64 = if fee >= gross {
            0
        } else {
            gross - fee
        };
        Ok((sol_out, fee))
    }
}

} // verus!
