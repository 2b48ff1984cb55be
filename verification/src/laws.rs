//! Protocol-level laws of the engine, proved once over the transition
//! relations that the operation contracts are stated with: supply
//! conservation and reserve backing under arbitrary trade sequences, the
//! monotone non-increase of the constant product, the impossibility of a
//! profitable immediate round trip on a fresh curve, and the terminality
//! of migration.

use vstd::prelude::*;
use crate::buy::{buy_overflows, buy_result};
use crate::error::OpenClawError;
use crate::migrate::migrate_result;
use crate::sell::{sell_overflows, sell_result};
use crate::state::{
    lemma_buy_quote, lemma_sell_quote, add_capped, buy_quote_enabled, buy_quote_tokens, curve_k,
    fee_of, reserves_backed, sell_quote_enabled, sell_quote_fee, sell_quote_gross, sell_quote_net,
    sub_or_zero, token_supply_conserved, BondingCurve, GlobalConfig,
};
use vstd::arithmetic::div_mod::lemma_remainder_lower;
use vstd::arithmetic::mul::{lemma_mul_inequality, lemma_mul_nonnegative};

verus! {

/// One trade request against a curve: the two operations that move
/// reserves while a curve is trading.
#[derive(Clone, Copy, Debug)]
pub enum TradeOp {
    /// Pay `sol_amount` currency in, demanding at least `min_tokens_out`
    /// tokens back.
    Buy { sol_amount: u64, min_tokens_out: u64 },
    /// Pay `token_amount` tokens in, demanding at least `min_sol_out`
    /// currency back.
    Sell { token_amount: u64, min_sol_out: u64 },
}

/// The curve and configuration after one trade request: the operation's
/// outcome when its quote is well defined, and the state unchanged when it
/// is not (the engine refuses to evaluate such a quote).
pub open spec fn trade_step(c: BondingCurve, cfg: GlobalConfig, op: TradeOp) -> (
    BondingCurve,
    GlobalConfig,
) {
    match op {
        TradeOp::Buy { sol_amount, min_tokens_out } => {
            if buy_quote_enabled(c, sol_amount, cfg.fee_bps) {
                let outcome = buy_result(c, cfg, sol_amount, min_tokens_out);
                (outcome.1, outcome.2)
            } else {
                (c, cfg)
            }
        },
        TradeOp::Sell { token_amount, min_sol_out } => {
            if sell_quote_enabled(c, token_amount) {
                let outcome = sell_result(c, cfg, token_amount, min_sol_out);
                (outcome.1, outcome.2)
            } else {
                (c, cfg)
            }
        },
    }
}

/// The curve and configuration after a whole sequence of trade requests,
/// applied in order.
pub open spec fn trade_run(c: BondingCurve, cfg: GlobalConfig, ops: Seq<TradeOp>) -> (
    BondingCurve,
    GlobalConfig,
)
    decreases ops.len(),
{
    if ops.len() == 0 {
        (c, cfg)
    } else {
        let stepped = trade_step(c, cfg, ops[0]);
        trade_run(stepped.0, stepped.1, ops.drop_first())
    }
}

/// One trade preserves supply conservation: what the curve holds plus what
/// it has distributed stays the seeded token supply, whether the trade
/// succeeds or fails.
pub proof fn lemma_trade_step_preserves_supply(
    c: BondingCurve,
    cfg: GlobalConfig,
    op: TradeOp,
    initial_tokens: u64,
)
    requires
        token_supply_conserved(c, initial_tokens),
    ensures
        token_supply_conserved(trade_step(c, cfg, op).0, initial_tokens),
{
}

/// Supply conservation holds across every sequence of buys and sells.
pub proof fn lemma_trade_run_preserves_supply(
    c: BondingCurve,
    cfg: GlobalConfig,
    ops: Seq<TradeOp>,
    initial_tokens: u64,
)
    requires
        token_supply_conserved(c, initial_tokens),
    ensures
        token_supply_conserved(trade_run(c, cfg, ops).0, initial_tokens),
    decreases ops.len(),
{
    if ops.len() > 0 {
        let stepped = trade_step(c, cfg, ops[0]);
        lemma_trade_step_preserves_supply(c, cfg, ops[0], initial_tokens);
        lemma_trade_run_preserves_supply(stepped.0, stepped.1, ops.drop_first(), initial_tokens);
    }
}

/// One trade preserves reserve backing: real reserves never outgrow the
/// virtual reserves they are accounted within.
pub proof fn lemma_trade_step_preserves_backing(c: BondingCurve, cfg: GlobalConfig, op: TradeOp)
    requires
        reserves_backed(c),
    ensures
        reserves_backed(trade_step(c, cfg, op).0),
{
    match op {
        TradeOp::Buy { sol_amount, .. } => {
            if buy_quote_enabled(c, sol_amount, cfg.fee_bps) {
                lemma_buy_quote(c, sol_amount, cfg.fee_bps);
            }
        },
        TradeOp::Sell { .. } => {
        },
    }
}

/// Reserve backing holds across every sequence of buys and sells.
pub proof fn lemma_trade_run_preserves_backing(
    c: BondingCurve,
    cfg: GlobalConfig,
    ops: Seq<TradeOp>,
)
    requires
        reserves_backed(c),
    ensures
        reserves_backed(trade_run(c, cfg, ops).0),
    decreases ops.len(),
{
    if ops.len() > 0 {
        let stepped = trade_step(c, cfg, ops[0]);
        lemma_trade_step_preserves_backing(c, cfg, ops[0]);
        lemma_trade_run_preserves_backing(stepped.0, stepped.1, ops.drop_first());
    }
}

/// No trade increases the constant product of the virtual reserves: the
/// fee removed before currency joins the pool, and every truncating
/// division, can only shrink `k` or leave it unchanged.
pub proof fn lemma_trade_step_never_increases_k(c: BondingCurve, cfg: GlobalConfig, op: TradeOp)
    ensures
        curve_k(trade_step(c, cfg, op).0) <= curve_k(c),
{
    let vs = c.virtual_sol_reserves as int;
    let vt = c.virtual_token_reserves as int;
    lemma_mul_nonnegative(vs, vt);
    match op {
        TradeOp::Buy { sol_amount, min_tokens_out } => {
            if buy_quote_enabled(c, sol_amount, cfg.fee_bps) && c.status is Active {
                lemma_buy_quote(c, sol_amount, cfg.fee_bps);
                let net = sub_or_zero(sol_amount, fee_of(sol_amount, cfg.fee_bps));
                let out = buy_quote_tokens(c, sol_amount, cfg.fee_bps);
                if out >= min_tokens_out && out <= c.real_token_reserves && !buy_overflows(
                    c,
                    cfg,
                    sol_amount,
                ) {
                    let new_sol = vs + net;
                    let remaining = curve_k(c) / new_sol;
                    lemma_remainder_lower(curve_k(c), new_sol);
                    assert(new_sol * remaining == remaining * new_sol) by (nonlinear_arith);
                }
            }
        },
        TradeOp::Sell { token_amount, min_sol_out } => {
            if sell_quote_enabled(c, token_amount) && c.status is Active {
                lemma_sell_quote(c, token_amount);
                let gross = sell_quote_gross(c, token_amount);
                let fee = sell_quote_fee(c, token_amount, cfg.fee_bps);
                let sol_out = sell_quote_net(c, token_amount, cfg.fee_bps);
                let debit = add_capped(sol_out, fee);
                if sol_out >= min_sol_out && sol_out <= c.real_sol_reserves && !sell_overflows(
                    c,
                    cfg,
                    token_amount,
                ) {
                    let new_tokens = vt + token_amount;
                    let remaining = curve_k(c) / new_tokens;
                    assert(debit >= gross);
                    lemma_remainder_lower(curve_k(c), new_tokens);
                    lemma_mul_inequality(vs - debit, remaining, new_tokens);
                    assert(new_tokens * remaining == remaining * new_tokens) by (nonlinear_arith);
                    assert((vs - debit) * new_tokens == new_tokens * (vs - debit))
                        by (nonlinear_arith);
                }
            }
        },
    }
}

/// The constant product never increases across a whole trade sequence.
pub proof fn lemma_trade_run_never_increases_k(
    c: BondingCurve,
    cfg: GlobalConfig,
    ops: Seq<TradeOp>,
)
    ensures
        curve_k(trade_run(c, cfg, ops).0) <= curve_k(c),
    decreases ops.len(),
{
    if ops.len() > 0 {
        let stepped = trade_step(c, cfg, ops[0]);
        lemma_trade_step_never_increases_k(c, cfg, ops[0]);
        lemma_trade_run_never_increases_k(stepped.0, stepped.1, ops.drop_first());
    }
}

/// Trades never change a curve's trading status: only a migration does.
pub proof fn lemma_trade_step_preserves_status(c: BondingCurve, cfg: GlobalConfig, op: TradeOp)
    ensures
        trade_step(c, cfg, op).0.status == c.status,
{
}

/// Migration is terminal: on a migrated curve, any buy or sell fails with
/// `AlreadyMigrated` and changes nothing, and so does migrating again.
pub proof fn lemma_migration_is_terminal(
    c: BondingCurve,
    cfg: GlobalConfig,
    sol_amount: u64,
    min_tokens_out: u64,
    token_amount: u64,
    min_sol_out: u64,
)
    requires
        c.status is Migrated,
    ensures
        buy_result(c, cfg, sol_amount, min_tokens_out) == (
            Err::<crate::buy::BuyReceipt, OpenClawError>(OpenClawError::AlreadyMigrated),
            c,
            cfg,
        ),
        sell_result(c, cfg, token_amount, min_sol_out) == (
            Err::<crate::sell::SellReceipt, OpenClawError>(OpenClawError::AlreadyMigrated),
            c,
            cfg,
        ),
        migrate_result(c, cfg) == (Err::<(), OpenClawError>(OpenClawError::AlreadyMigrated), c),
{
}

/// A migrated curve is frozen for good: no sequence of trade requests
/// moves it or the configuration at all.
pub proof fn lemma_migrated_curve_is_frozen(c: BondingCurve, cfg: GlobalConfig, ops: Seq<TradeOp>)
    requires
        c.status is Migrated,
    ensures
        trade_run(c, cfg, ops) == (c, cfg),
    decreases ops.len(),
{
    if ops.len() > 0 {
        lemma_migrated_curve_is_frozen(c, cfg, ops.drop_first());
    }
}

/// An immediate round trip never profits on a fresh curve: buying and then
/// selling back exactly the tokens received returns at most the currency
/// paid in, whenever both operations succeed. (The real currency reserves
/// bound every payout, and a fresh curve holds none before the buy.)
pub proof fn lemma_round_trip_never_profits(
    c: BondingCurve,
    cfg: GlobalConfig,
    sol_amount: u64,
    min_tokens_out: u64,
    min_sol_out: u64,
)
    requires
        c.real_sol_reserves == 0,
        buy_result(c, cfg, sol_amount, min_tokens_out).0 is Ok,
        ({
            let bought = buy_result(c, cfg, sol_amount, min_tokens_out);
            sell_result(bought.1, bought.2, bought.0->Ok_0.tokens_out, min_sol_out).0 is Ok
        }),
    ensures
        ({
            let bought = buy_result(c, cfg, sol_amount, min_tokens_out);
            let sold = sell_result(bought.1, bought.2, bought.0->Ok_0.tokens_out, min_sol_out);
            sold.0->Ok_0.sol_out <= sol_amount
        }),
{
}

} // verus!
