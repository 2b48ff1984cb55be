//! Launching a token: a fresh bonding curve is seeded from the
//! configuration and the hosting runtime mints the full initial supply
//! into the curve's custody.

use vstd::prelude::*;
use crate::state::{
    add_capped, reserves_backed, token_supply_conserved, AccountId, BondingCurve, CurveStatus,
    GlobalConfig,
};

verus! {

/// Token metadata, passed through to the external token service; the
/// engine's own accounting does not read it.
#[derive(Clone, Debug)]
pub struct CreateTokenParams {
    /// Display name of the token.
    pub name: String,
    /// Ticker symbol of the token.
    pub symbol: String,
    /// Metadata location.
    pub uri: String,
}

/// Validated records and identities a token launch operates on. The mint
/// identity is the freshly created token mint chosen by the runtime.
#[derive(Clone, Copy, Debug, PartialEq, Eq, Structural)]
pub struct CreateToken {
    /// The identity launching the token.
    pub creator: AccountId,
    /// The new token's mint identity.
    pub mint: AccountId,
    /// The singleton configuration record.
    pub global_config: GlobalConfig,
}

/// The curve a launch writes: virtual reserves seeded from the
/// configuration, the full token supply in custody, nothing sold, active.
pub open spec fn created_curve(
    cfg: GlobalConfig,
    mint: AccountId,
    creator: AccountId,
    created_at: i64,
) -> BondingCurve {
    BondingCurve {
        mint: mint,
        creator: creator,
        virtual_sol_reserves: cfg.initial_virtual_sol,
        virtual_token_reserves: cfg.initial_virtual_tokens,
        real_sol_reserves: 0u64,
        real_token_reserves: cfg.initial_virtual_tokens,
        tokens_sold: 0u64,
        status: CurveStatus::Active,
        created_at: created_at,
    }
}

/// Launch a token at time `created_at`: returns the new curve, whose full
/// initial supply (`initial_virtual_tokens` of the configuration) the
/// runtime must mint into the curve's custody, and counts the launch in
/// the aggregate statistics. A fresh curve conserves its token supply and
/// its real reserves are backed by the virtual ones.
#[allow(unused_variables)]
pub fn handler(ctx: &mut CreateToken, params: CreateTokenParams, created_at: i64) -> (curve:
    BondingCurve)
    ensures
        curve == created_curve(
            old(ctx).global_config,
            old(ctx).mint,
            old(ctx).creator,
            created_at,
        ),
        token_supply_conserved(curve, old(ctx).global_config.initial_virtual_tokens),
        reserves_backed(curve),
        final(ctx).global_config == (GlobalConfig {
            total_tokens: add_capped(old(ctx).global_config.total_tokens, 1),
            ..old(ctx).global_config
        }),
        final(ctx).creator == old(ctx).creator,
        final(ctx).mint == old(ctx).mint,
{
    let curve = BondingCurve {
        mint: ctx.mint,
        creator: ctx.creator,
        virtual_sol_reserves: ctx.global_config.initial_virtual_sol,
        virtual_token_reserves: ctx.global_config.initial_virtual_tokens,
        real_sol_reserves: 0,
        real_token_reserves: ctx.global_config.initial_virtual_tokens,
        tokens_sold: 0,
        status: CurveStatus::Active,
        created_at,
    };
    let total = ctx.global_config.total_tokens;
    ctx.global_config.total_tokens = if total > u64::MAX - 1 {
        u64::MAX
    } else {
        total + 1
    };
    curve
}

} // verus!
