//! Buying tokens from a curve: the fee comes off the currency paid in, the
//! remainder joins the reserves, and tokens leave the curve's custody.

use vstd::prelude::*;
use crate::error::OpenClawError;
use crate::state::{
    lemma_buy_quote, buy_quote_enabled, buy_quote_tokens, fee_of, sub_or_zero, AccountId,
    BondingCurve, CurveStatus, GlobalConfig,
};

verus! {

/// Validated records and identities a buy operates on: the hosting runtime
/// has already checked ownership, signatures and address derivation.
#[derive(Clone, Copy, Debug, PartialEq, Eq, Structural)]
pub struct Buy {
    /// The identity paying currency in.
    pub buyer: AccountId,
    /// The identity credited with the fee (must match the configuration).
    pub fee_recipient: AccountId,
    /// The singleton configuration record.
    pub global_config: GlobalConfig,
    /// The curve being bought from.
    pub bonding_curve: BondingCurve,
}

/// The transfers a successful buy asks the hosting runtime to perform:
/// `sol_to_curve` from the buyer to the curve, `fee` (if nonzero) from the
/// buyer to the fee recipient, and `tokens_out` from the curve's custody to
/// the buyer.
#[derive(Clone, Copy, Debug, PartialEq, Eq, Structural)]
pub struct BuyReceipt {
    /// Tokens released to the buyer.
    pub tokens_out: u64,
    /// Fee taken off the currency paid in.
    pub fee: u64,
    /// Currency added to the curve: the gross amount less the fee.
    pub sol_to_curve: u64,
}

/// Whether applying a buy's reserve and statistics deltas would overflow a
/// 64-bit counter. (The token-side subtractions cannot underflow: the quote
/// never exceeds the virtual reserves, and the liquidity guard has already
/// bounded it by the real reserves.)
pub open spec fn buy_overflows(c: BondingCurve, cfg: GlobalConfig, sol_amount: u64) -> bool {
    let net = sub_or_zero(sol_amount, fee_of(sol_amount, cfg.fee_bps));
    let out = buy_quote_tokens(c, sol_amount, cfg.fee_bps);
    ||| c.virtual_sol_reserves + net > u64::MAX
    ||| c.real_sol_reserves + net > u64::MAX
    ||| c.tokens_sold + out > u64::MAX
    ||| cfg.total_volume + sol_amount > u64::MAX
}

/// The complete outcome of a buy: the result handed to the caller and the
/// curve and configuration records after the operation. Every failure
/// leaves both records exactly as they were.
pub open spec fn buy_result(
    c: BondingCurve,
    cfg: GlobalConfig,
    sol_amount: u64,
    min_tokens_out: u64,
) -> (Result<BuyReceipt, OpenClawError>, BondingCurve, GlobalConfig) {
    if c.status is Migrated {
        (Err(OpenClawError::AlreadyMigrated), c, cfg)
    } else {
        let fee = fee_of(sol_amount, cfg.fee_bps);
        let net = sub_or_zero(sol_amount, fee);
        let out = buy_quote_tokens(c, sol_amount, cfg.fee_bps);
        if out < min_tokens_out {
            (Err(OpenClawError::SlippageExceeded), c, cfg)
        } else if out > c.real_token_reserves {
            (Err(OpenClawError::InsufficientLiquidity), c, cfg)
        } else if buy_overflows(c, cfg, sol_amount) {
            (Err(OpenClawError::MathOverflow), c, cfg)
        } else {
            (
                Ok(BuyReceipt { tokens_out: out, fee: fee, sol_to_curve: net }),
                BondingCurve {
                    virtual_sol_reserves: (c.virtual_sol_reserves + net) as u64,
                    virtual_token_reserves: (c.virtual_token_reserves - out) as u64,
                    real_sol_reserves: (c.real_sol_reserves + net) as u64,
                    real_token_reserves: (c.real_token_reserves - out) as u64,
                    tokens_sold: (c.tokens_sold + out) as u64,
                    ..c
                },
                GlobalConfig { total_volume: (cfg.total_volume + sol_amount) as u64, ..cfg },
            )
        }
    }
}

/// Buy tokens from the curve with `sol_amount` currency, refusing the trade
/// when fewer than `min_tokens_out` tokens would come back. On success the
/// reserve and statistics deltas are applied atomically and the receipt
/// names the transfers owed; on any failure nothing changes.
pub fn handler(ctx: &mut Buy, sol_amount: u64, min_tokens_out: u64) -> (r: Result<
    BuyReceipt,
    OpenClawError,
>)
    requires
        buy_quote_enabled(old(ctx).bonding_curve, sol_amount, old(ctx).global_config.fee_bps),
    ensures
        ({
            let (res, curve, config) = buy_result(
                old(ctx).bonding_curve,
                old(ctx).global_config,
                sol_amount,
                min_tokens_out,
            );
            &&& r == res
            &&& final(ctx).bonding_curve == curve
            &&& final(ctx).global_config == config
        }),
        final(ctx).buyer == old(ctx).buyer,
        final(ctx).fee_recipient == old(ctx).fee_recipient,
{
    if ctx.bonding_curve.status == CurveStatus::Migrated {
        return Err(OpenClawError::AlreadyMigrated);
    }

    let fee_bps = ctx.global_config.fee_bps;
    let (tokens_out, fee) = match ctx.bonding_curve.get_tokens_out(sol_amount, fee_bps) {
        Ok(quote) => quote,
        Err(e) => {
            return Err(e);
        },
    };

    if tokens_out < min_tokens_out {
        return Err(OpenClawError::SlippageExceeded);
    }
    if tokens_out > ctx.bonding_curve.real_token_reserves {
        return Err(OpenClawError::InsufficientLiquidity);
    }

    let sol_after_fee: u64 = if fee >= sol_amount {
        0
    } else {
        sol_amount - fee
    };

    proof {
        lemma_buy_quote(ctx.bonding_curve, sol_amount, fee_bps);
    }

    let vs = ctx.bonding_curve.virtual_sol_reserves;
    let rs = ctx.bonding_curve.real_sol_reserves;
    let sold = ctx.bonding_curve.tokens_sold;
    let volume = ctx.global_config.total_volume;
    if vs > u64::MAX - sol_after_fee || rs > u64::MAX - sol_after_fee || sold > u64::MAX
        - tokens_out || volume > u64::MAX - sol_amount {
        return Err(OpenClawError::MathOverflow);
    }

    ctx.bonding_curve.virtual_sol_reserves = vs + sol_after_fee;
    ctx.bonding_curve.virtual_token_reserves = ctx.bonding_curve.virtual_token_reserves
        - tokens_out;
    ctx.bonding_curve.real_sol_reserves = rs + sol_after_fee;
    ctx.bonding_curve.real_token_reserves = ctx.bonding_curve.real_token_reserves - tokens_out;
    ctx.bonding_curve.tokens_sold = sold + tokens_out;
    ctx.global_config.total_volume = volume + sol_amount;

    Ok(BuyReceipt { tokens_out, fee, sol_to_curve: sol_after_fee })
}

} // verus!
