//! A bonding-curve automated market maker for launching fungible tokens.
//!
//! Each token trades against a constant-product curve seeded with virtual
//! reserves until its real currency reserves reach a migration threshold,
//! at which point the curve is frozen and liquidity moves to an external
//! venue. The pricing engine, the reserve accounting, and the five
//! lifecycle operations (initialize, create, buy, sell, migrate, plus the
//! administrative update) are implemented here as pure state transitions
//! with proved contracts; the hosting runtime supplies persistence,
//! authorization and the actual currency/token transfers.

use vstd::prelude::*;

pub mod buy;
pub mod create_token;
pub mod error;
pub mod initialize;
pub mod laws;
pub mod migrate;
pub mod sell;
pub mod state;
pub mod update_config;

verus! {

use crate::buy::{buy_result, Buy, BuyReceipt};
use crate::create_token::{created_curve, CreateToken, CreateTokenParams};
use crate::error::OpenClawError;
use crate::initialize::{initial_config, Initialize, InitializeParams};
use crate::migrate::{migrate_result, Migrate};
use crate::sell::{sell_result, Sell, SellReceipt};
use crate::state::{
    add_capped, buy_quote_enabled, reserves_backed, sell_quote_enabled, token_supply_conserved,
    BondingCurve, GlobalConfig,
};
use crate::update_config::{update_config_result, UpdateConfig, UpdateConfigParams};

/// Initialize the global configuration (deployer only, called once; the
/// hosting runtime's create-once record semantics refuse a second call).
pub fn initialize(ctx: &Initialize, params: InitializeParams) -> (config: GlobalConfig)
    ensures
        config == initial_config(*ctx, params),
{
    crate::initialize::handler(ctx, params)
}

/// Create a new token with a bonding curve seeded from the configuration.
pub fn create_token(ctx: &mut CreateToken, params: CreateTokenParams, created_at: i64) -> (curve:
    BondingCurve)
    ensures
        curve == created_curve(
            old(ctx).global_config,
            old(ctx).mint,
            old(ctx).creator,
            created_at,
        ),
        token_supply_conserved(curve, old(ctx).global_config.initial_virtual_tokens),
        reserves_backed(curve),
        final(ctx).global_config == (GlobalConfig {
            total_tokens: add_capped(old(ctx).global_config.total_tokens, 1),
            ..old(ctx).global_config
        }),
        final(ctx).creator == old(ctx).creator,
        final(ctx).mint == old(ctx).mint,
{
    crate::create_token::handler(ctx, params, created_at)
}

/// Buy tokens from the bonding curve.
pub fn buy(ctx: &mut Buy, sol_amount: u64, min_tokens_out: u64) -> (r: Result<
    BuyReceipt,
    OpenClawError,
>)
    requires
        buy_quote_enabled(old(ctx).bonding_curve, sol_amount, old(ctx).global_config.fee_bps),
    ensures
        ({
            let (res, curve, config) = buy_result(
                old(ctx).bonding_curve,
                old(ctx).global_config,
                sol_amount,
                min_tokens_out,
            );
            &&& r == res
            &&& final(ctx).bonding_curve == curve
            &&& final(ctx).global_config == config
        }),
        final(ctx).buyer == old(ctx).buyer,
        final(ctx).fee_recipient == old(ctx).fee_recipient,
{
    crate::buy::handler(ctx, sol_amount, min_tokens_out)
}

/// Sell tokens back to the bonding curve.
pub fn sell(ctx: &mut Sell, token_amount: u64, min_sol_out: u64) -> (r: Result<
    SellReceipt,
    OpenClawError,
>)
    requires
        sell_quote_enabled(old(ctx).bonding_curve, token_amount),
    ensures
        ({
            let (res, curve, config) = sell_result(
                old(ctx).bonding_curve,
                old(ctx).global_config,
                token_amount,
                min_sol_out,
            );
            &&& r == res
            &&& final(ctx).bonding_curve == curve
            &&& final(ctx).global_config == config
        }),
        final(ctx).seller == old(ctx).seller,
        final(ctx).fee_recipient == old(ctx).fee_recipient,
{
    crate::sell::handler(ctx, token_amount, min_sol_out)
}

/// Migrate the curve's liquidity to an external venue once the funding
/// threshold is reached; the flip is terminal.
pub fn migrate(ctx: &mut Migrate) -> (r: Result<(), OpenClawError>)
    ensures
        ({
            let (res, curve) = migrate_result(old(ctx).bonding_curve, old(ctx).global_config);
            &&& r == res
            &&& final(ctx).bonding_curve == curve
        }),
        final(ctx).global_config == old(ctx).global_config,
        final(ctx).payer == old(ctx).payer,
{
    crate::migrate::handler(ctx)
}

/// Update the global configuration (authority only).
pub fn update_config(ctx: &mut UpdateConfig, params: UpdateConfigParams) -> (r: Result<
    (),
    OpenClawError,
>)
    ensures
        ({
            let (res, config) = update_config_result(
                old(ctx).global_config,
                old(ctx).authority,
                params,
            );
            &&& r == res
            &&& final(ctx).global_config == config
        }),
        final(ctx).authority == old(ctx).authority,
{
    crate::update_config::handler(ctx, params)
}

} // verus!
