//! Selling tokens back to a curve: the tokens rejoin the reserves, the fee
//! comes off the gross currency released, and the seller is paid the rest.
//!
//! The liquidity guard compares the *net* payout against the real currency
//! reserves, while the debit actually applied is the net payout plus the
//! fee; with a nonzero fee the debit can therefore exceed the guarded
//! bound, in which case the checked subtraction fails the operation with
//! `MathOverflow`. This asymmetry is deliberate and is reproduced exactly.

use vstd::prelude::*;
use crate::error::OpenClawError;
use crate::state::{
    lemma_sell_quote, add_capped, sell_quote_enabled, sell_quote_fee, sell_quote_gross,
    sell_quote_net, sub_or_zero, AccountId, BondingCurve, CurveStatus, GlobalConfig,
};

verus! {

/// Validated records and identities a sell operates on: the hosting runtime
/// has already checked ownership, signatures and address derivation.
#[derive(Clone, Copy, Debug, PartialEq, Eq, Structural)]
pub struct Sell {
    /// The identity paying tokens in.
    pub seller: AccountId,
    /// The identity credited with the fee (must match the configuration).
    pub fee_recipient: AccountId,
    /// The singleton configuration record.
    pub global_config: GlobalConfig,
    /// The curve being sold to.
    pub bonding_curve: BondingCurve,
}

/// The transfers a successful sell asks the hosting runtime to perform:
/// the tokens sold from the seller to the curve's custody, `sol_debit`
/// out of the curve, of which `sol_out` goes to the seller and `fee` (if
/// nonzero) to the fee recipient.
#[derive(Clone, Copy, Debug, PartialEq, Eq, Structural)]
pub struct SellReceipt {
    /// Net currency paid to the seller.
    pub sol_out: u64,
    /// Fee taken off the gross currency released.
    pub fee: u64,
    /// Currency debited from the curve: the net payout plus the fee.
    pub sol_debit: u64,
}

/// Whether applying a sell's reserve and statistics deltas would overflow
/// or underflow a 64-bit counter. The debit may exceed the real currency
/// reserves even though the net payout passed the liquidity guard, and a
/// sell of more tokens than the curve has ever distributed underflows
/// `tokens_sold`; both fail here.
pub open spec fn sell_overflows(c: BondingCurve, cfg: GlobalConfig, token_amount: u64) -> bool {
    let sol_out = sell_quote_net(c, token_amount, cfg.fee_bps);
    let fee = sell_quote_fee(c, token_amount, cfg.fee_bps);
    let debit = add_capped(sol_out, fee);
    ||| c.virtual_sol_reserves < debit
    ||| c.virtual_token_reserves + token_amount > u64::MAX
    ||| c.real_sol_reserves < debit
    ||| c.real_token_reserves + token_amount > u64::MAX
    ||| c.tokens_sold < token_amount
    ||| cfg.total_volume + debit > u64::MAX
}

/// The complete outcome of a sell: the result handed to the caller and the
/// curve and configuration records after the operation. Every failure
/// leaves both records exactly as they were.
pub open spec fn sell_result(
    c: BondingCurve,
    cfg: GlobalConfig,
    token_amount: u64,
    min_sol_out: u64,
) -> (Result<SellReceipt, OpenClawError>, BondingCurve, GlobalConfig) {
    if c.status is Migrated {
        (Err(OpenClawError::AlreadyMigrated), c, cfg)
    } else {
        let sol_out = sell_quote_net(c, token_amount, cfg.fee_bps);
        let fee = sell_quote_fee(c, token_amount, cfg.fee_bps);
        let debit = add_capped(sol_out, fee);
        if sol_out < min_sol_out {
            (Err(OpenClawError::SlippageExceeded), c, cfg)
        } else if sol_out > c.real_sol_reserves {
            (Err(OpenClawError::InsufficientLiquidity), c, cfg)
        } else if sell_overflows(c, cfg, token_amount) {
            (Err(OpenClawError::MathOverflow), c, cfg)
        } else {
            (
                Ok(SellReceipt { sol_out: sol_out, fee: fee, sol_debit: debit }),
                BondingCurve {
                    virtual_sol_reserves: (c.virtual_sol_reserves - debit) as u64,
                    virtual_token_reserves: (c.virtual_token_reserves + token_amount) as u64,
                    real_sol_reserves: (c.real_sol_reserves - debit) as u64,
                    real_token_reserves: (c.real_token_reserves + token_amount) as u64,
                    tokens_sold: (c.tokens_sold - token_amount) as u64,
                    ..c
                },
                GlobalConfig { total_volume: (cfg.total_volume + debit) as u64, ..cfg },
            )
        }
    }
}

/// Sell `token_amount` tokens back to the curve, refusing the trade when
/// less than `min_sol_out` currency would come back. On success the reserve
/// and statistics deltas are applied atomically and the receipt names the
/// transfers owed; on any failure nothing changes.
pub fn handler(ctx: &mut Sell, token_amount: u64, min_sol_out: u64) -> (r: Result<
    SellReceipt,
    OpenClawError,
>)
    requires
        sell_quote_enabled(old(ctx).bonding_curve, token_amount),
    ensures
        ({
            let (res, curve, config) = sell_result(
                old(ctx).bonding_curve,
                old(ctx).global_config,
                token_amount,
                min_sol_out,
            );
            &&& r == res
            &&& final(ctx).bonding_curve == curve
            &&& final(ctx).global_config == config
        }),
        final(ctx).seller == old(ctx).seller,
        final(ctx).fee_recipient == old(ctx).fee_recipient,
{
    if ctx.bonding_curve.status == CurveStatus::Migrated {
        return Err(OpenClawError::AlreadyMigrated);
    }

    let fee_bps = ctx.global_config.fee_bps;
    let (sol_out, fee) = match ctx.bonding_curve.get_sol_out(token_amount, fee_bps) {
        Ok(quote) => quote,
        Err(e) => {
            return Err(e);
        },
    };

    if sol_out < min_sol_out {
        return Err(OpenClawError::SlippageExceeded);
    }
    if sol_out > ctx.bonding_curve.real_sol_reserves {
        return Err(OpenClawError::InsufficientLiquidity);
    }

    let sol_out_plus_fee: u64 = if sol_out > u64::MAX - fee {
        u64::MAX
    } else {
        sol_out + fee
    };

    proof {
        lemma_sell_quote(ctx.bonding_curve, token_amount);
    }

    let vs = ctx.bonding_curve.virtual_sol_reserves;
    let vt = ctx.bonding_curve.virtual_token_reserves;
    let rs = ctx.bonding_curve.real_sol_reserves;
    let rt = ctx.bonding_curve.real_token_reserves;
    let sold = ctx.bonding_curve.tokens_sold;
    let volume = ctx.global_config.total_volume;
    if vs < sol_out_plus_fee || vt > u64::MAX - token_amount || rs < sol_out_plus_fee || rt
        > u64::MAX - token_amount || sold < token_amount || volume > u64::MAX
        - sol_out_plus_fee {
        return Err(OpenClawError::MathOverflow);
    }

    ctx.bonding_curve.virtual_sol_reserves = vs - sol_out_plus_fee;
    ctx.bonding_curve.virtual_token_reserves = vt + token_amount;
    ctx.bonding_curve.real_sol_reserves = rs - sol_out_plus_fee;
    ctx.bonding_curve.real_token_reserves = rt + token_amount;
    ctx.bonding_curve.tokens_sold = sold - token_amount;
    ctx.global_config.total_volume = volume + sol_out_plus_fee;

    Ok(SellReceipt { sol_out, fee, sol_debit: sol_out_plus_fee })
}

} // verus!
