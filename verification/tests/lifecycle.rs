//! Tests of the five lifecycle operations and the administrative update,
//! driven through the top-level operation surface.

use openclaw::buy::{Buy, BuyReceipt};
use openclaw::create_token::{CreateToken, CreateTokenParams};
use openclaw::error::OpenClawError;
use openclaw::initialize::{Initialize, InitializeParams};
use openclaw::migrate::Migrate;
use openclaw::sell::{Sell, SellReceipt};
use openclaw::state::{AccountId, BondingCurve, CurveStatus, GlobalConfig};
use openclaw::update_config::{UpdateConfig, UpdateConfigParams};

fn acct(n: u128) -> AccountId {
    AccountId { hi: n, lo: n.wrapping_mul(7) }
}

fn demo_config() -> GlobalConfig {
    let ctx = Initialize { authority: acct(1), fee_recipient: acct(2) };
    let params = InitializeParams {
        fee_bps: 100,
        migration_threshold: 500,
        initial_virtual_sol: 30,
        initial_virtual_tokens: 1000,
    };
    openclaw::initialize(&ctx, params)
}

fn demo_curve(cfg: GlobalConfig) -> BondingCurve {
    let mut ctx = CreateToken { creator: acct(3), mint: acct(4), global_config: cfg };
    let params = CreateTokenParams {
        name: String::from("Claw"),
        symbol: String::from("CLAW"),
        uri: String::from("ipfs://claw"),
    };
    openclaw::create_token(&mut ctx, params, 1_700_000_000)
}

#[test]
fn initialize_sets_every_field() {
    let cfg = demo_config();
    assert_eq!(cfg.authority, acct(1));
    assert_eq!(cfg.fee_recipient, acct(2));
    assert_eq!(cfg.fee_bps, 100);
    assert_eq!(cfg.migration_threshold, 500);
    assert_eq!(cfg.initial_virtual_sol, 30);
    assert_eq!(cfg.initial_virtual_tokens, 1000);
    assert_eq!(cfg.total_tokens, 0);
    assert_eq!(cfg.total_volume, 0);
}

#[test]
fn initialize_does_not_bound_the_fee() {
    // unlike update_config, initialization accepts any rate: a known gap
    // in the protocol's validation coverage, kept as it is
    let ctx = Initialize { authority: acct(1), fee_recipient: acct(2) };
    let params = InitializeParams {
        fee_bps: 5000,
        migration_threshold: 0,
        initial_virtual_sol: 1,
        initial_virtual_tokens: 1,
    };
    assert_eq!(openclaw::initialize(&ctx, params).fee_bps, 5000);
}

#[test]
fn create_token_seeds_the_curve() {
    let cfg = demo_config();
    let mut ctx = CreateToken { creator: acct(3), mint: acct(4), global_config: cfg };
    let params = CreateTokenParams {
        name: String::from("Claw"),
        symbol: String::from("CLAW"),
        uri: String::from("ipfs://claw"),
    };
    let curve = openclaw::create_token(&mut ctx, params, 42);
    assert_eq!(curve.mint, acct(4));
    assert_eq!(curve.creator, acct(3));
    assert_eq!(curve.virtual_sol_reserves, 30);
    assert_eq!(curve.virtual_token_reserves, 1000);
    assert_eq!(curve.real_sol_reserves, 0);
    assert_eq!(curve.real_token_reserves, 1000);
    assert_eq!(curve.tokens_sold, 0);
    assert_eq!(curve.status, CurveStatus::Active);
    assert_eq!(curve.created_at, 42);
    assert_eq!(ctx.global_config.total_tokens, 1);
    assert_eq!(ctx.global_config.total_volume, 0);
}

#[test]
fn buy_applies_all_deltas() {
    let cfg = demo_config();
    let curve = demo_curve(cfg);
    let mut ctx = Buy {
        buyer: acct(5),
        fee_recipient: cfg.fee_recipient,
        global_config: cfg,
        bonding_curve: curve,
    };
    let receipt = openclaw::buy(&mut ctx, 1000, 0).unwrap();
    assert_eq!(receipt, BuyReceipt { tokens_out: 971, fee: 10, sol_to_curve: 990 });
    assert_eq!(ctx.bonding_curve.virtual_sol_reserves, 1020);
    assert_eq!(ctx.bonding_curve.virtual_token_reserves, 29);
    assert_eq!(ctx.bonding_curve.real_sol_reserves, 990);
    assert_eq!(ctx.bonding_curve.real_token_reserves, 29);
    assert_eq!(ctx.bonding_curve.tokens_sold, 971);
    // volume counts the gross amount paid, fee included
    assert_eq!(ctx.global_config.total_volume, 1000);
    assert_eq!(ctx.bonding_curve.status, CurveStatus::Active);
}

#[test]
fn buy_respects_slippage_limit() {
    let cfg = demo_config();
    let curve = demo_curve(cfg);
    let mut ctx = Buy {
        buyer: acct(5),
        fee_recipient: cfg.fee_recipient,
        global_config: cfg,
        bonding_curve: curve,
    };
    assert_eq!(openclaw::buy(&mut ctx, 1000, 972), Err(OpenClawError::SlippageExceeded));
    assert_eq!(ctx.bonding_curve, curve);
    assert_eq!(ctx.global_config, cfg);
}

#[test]
fn buy_refused_when_curve_cannot_cover_tokens() {
    let cfg = demo_config();
    let mut curve = demo_curve(cfg);
    // the curve has already distributed most of its custody
    curve.real_token_reserves = 100;
    curve.tokens_sold = 900;
    let mut ctx = Buy {
        buyer: acct(5),
        fee_recipient: cfg.fee_recipient,
        global_config: cfg,
        bonding_curve: curve,
    };
    assert_eq!(openclaw::buy(&mut ctx, 1000, 0), Err(OpenClawError::InsufficientLiquidity));
    assert_eq!(ctx.bonding_curve, curve);
}

#[test]
fn buy_overflow_of_volume_counter_fails_cleanly() {
    let mut cfg = demo_config();
    cfg.total_volume = u64::MAX;
    let curve = demo_curve(cfg);
    let mut ctx = Buy {
        buyer: acct(5),
        fee_recipient: cfg.fee_recipient,
        global_config: cfg,
        bonding_curve: curve,
    };
    assert_eq!(openclaw::buy(&mut ctx, 1000, 0), Err(OpenClawError::MathOverflow));
    assert_eq!(ctx.bonding_curve, curve);
    assert_eq!(ctx.global_config, cfg);
}

#[test]
fn sell_applies_all_deltas() {
    // after buying with 10 lamports (no fee below the threshold), selling
    // the 250 tokens back returns the curve exactly to its seeded state
    let cfg = demo_config();
    let curve = demo_curve(cfg);
    let mut bctx = Buy {
        buyer: acct(5),
        fee_recipient: cfg.fee_recipient,
        global_config: cfg,
        bonding_curve: curve,
    };
    let bought = openclaw::buy(&mut bctx, 10, 0).unwrap();
    assert_eq!(bought, BuyReceipt { tokens_out: 250, fee: 0, sol_to_curve: 10 });
    let mut sctx = Sell {
        seller: acct(5),
        fee_recipient: cfg.fee_recipient,
        global_config: bctx.global_config,
        bonding_curve: bctx.bonding_curve,
    };
    let sold = openclaw::sell(&mut sctx, 250, 0).unwrap();
    assert_eq!(sold, SellReceipt { sol_out: 10, fee: 0, sol_debit: 10 });
    assert_eq!(sctx.bonding_curve.virtual_sol_reserves, 30);
    assert_eq!(sctx.bonding_curve.virtual_token_reserves, 1000);
    assert_eq!(sctx.bonding_curve.real_sol_reserves, 0);
    assert_eq!(sctx.bonding_curve.real_token_reserves, 1000);
    assert_eq!(sctx.bonding_curve.tokens_sold, 0);
    // volume counts the buy gross and the sell debit
    assert_eq!(sctx.global_config.total_volume, 20);
}

#[test]
fn sell_respects_slippage_limit() {
    let cfg = demo_config();
    let curve = BondingCurve {
        virtual_sol_reserves: 40,
        virtual_token_reserves: 750,
        real_sol_reserves: 10,
        real_token_reserves: 750,
        tokens_sold: 250,
        ..demo_curve(cfg)
    };
    let mut ctx = Sell {
        seller: acct(5),
        fee_recipient: cfg.fee_recipient,
        global_config: cfg,
        bonding_curve: curve,
    };
    assert_eq!(openclaw::sell(&mut ctx, 250, 11), Err(OpenClawError::SlippageExceeded));
    assert_eq!(ctx.bonding_curve, curve);
}

#[test]
fn sell_refused_when_payout_exceeds_reserves() {
    // quote gain from truncation: selling 7 tokens bought for 7 lamports
    // quotes 8 lamports gross, which the 7 lamports of real reserves
    // cannot cover
    let mut cfg = demo_config();
    cfg.fee_bps = 0;
    let curve = BondingCurve {
        virtual_sol_reserves: 107,
        virtual_token_reserves: 93,
        real_sol_reserves: 7,
        real_token_reserves: 93,
        tokens_sold: 7,
        ..demo_curve(cfg)
    };
    let mut ctx = Sell {
        seller: acct(5),
        fee_recipient: cfg.fee_recipient,
        global_config: cfg,
        bonding_curve: curve,
    };
    assert_eq!(openclaw::sell(&mut ctx, 7, 0), Err(OpenClawError::InsufficientLiquidity));
    assert_eq!(ctx.bonding_curve, curve);
}

#[test]
fn sell_debit_above_checked_bound_fails_with_overflow() {
    // the liquidity guard admits the net payout (982 <= 990), but the
    // applied debit adds the fee (991 > 990), failing the checked
    // subtraction: the known asymmetry of the sell path, kept as it is
    let cfg = demo_config();
    let curve = BondingCurve {
        virtual_sol_reserves: 1020,
        virtual_token_reserves: 29,
        real_sol_reserves: 990,
        real_token_reserves: 29,
        tokens_sold: 971,
        ..demo_curve(cfg)
    };
    let mut ctx = Sell {
        seller: acct(5),
        fee_recipient: cfg.fee_recipient,
        global_config: cfg,
        bonding_curve: curve,
    };
    assert_eq!(openclaw::sell(&mut ctx, 971, 0), Err(OpenClawError::MathOverflow));
    assert_eq!(ctx.bonding_curve, curve);
    assert_eq!(ctx.global_config, cfg);
}

#[test]
fn sell_of_more_than_ever_sold_fails_with_overflow() {
    let mut cfg = demo_config();
    cfg.fee_bps = 0;
    let curve = BondingCurve {
        virtual_sol_reserves: 1000,
        virtual_token_reserves: 1000,
        real_sol_reserves: 1000,
        real_token_reserves: 1000,
        tokens_sold: 0,
        ..demo_curve(cfg)
    };
    let mut ctx = Sell {
        seller: acct(5),
        fee_recipient: cfg.fee_recipient,
        global_config: cfg,
        bonding_curve: curve,
    };
    // quote: k = 1000000; new_tokens = 1010; new_sol = 990; payout 10 is
    // covered, but tokens_sold cannot go below zero
    assert_eq!(openclaw::sell(&mut ctx, 10, 0), Err(OpenClawError::MathOverflow));
    assert_eq!(ctx.bonding_curve, curve);
}

#[test]
fn migrate_below_threshold_fails() {
    let cfg = demo_config();
    let curve = demo_curve(cfg);
    let mut ctx = Migrate { payer: acct(5), global_config: cfg, bonding_curve: curve };
    assert_eq!(
        openclaw::migrate(&mut ctx),
        Err(OpenClawError::MigrationThresholdNotReached)
    );
    assert_eq!(ctx.bonding_curve.status, CurveStatus::Active);
}

#[test]
fn migrate_at_threshold_freezes_the_curve() {
    let cfg = demo_config();
    let curve = BondingCurve { real_sol_reserves: 500, ..demo_curve(cfg) };
    let mut ctx = Migrate { payer: acct(5), global_config: cfg, bonding_curve: curve };
    assert_eq!(openclaw::migrate(&mut ctx), Ok(()));
    assert_eq!(ctx.bonding_curve.status, CurveStatus::Migrated);
    // everything but the status is untouched
    assert_eq!(
        BondingCurve { status: CurveStatus::Active, ..ctx.bonding_curve },
        curve
    );
}

#[test]
fn migration_is_terminal_for_every_operation() {
    let cfg = demo_config();
    let migrated = BondingCurve {
        status: CurveStatus::Migrated,
        real_sol_reserves: 500,
        ..demo_curve(cfg)
    };
    let mut bctx = Buy {
        buyer: acct(5),
        fee_recipient: cfg.fee_recipient,
        global_config: cfg,
        bonding_curve: migrated,
    };
    assert_eq!(openclaw::buy(&mut bctx, 1000, 0), Err(OpenClawError::AlreadyMigrated));
    assert_eq!(bctx.bonding_curve, migrated);
    let mut sctx = Sell {
        seller: acct(5),
        fee_recipient: cfg.fee_recipient,
        global_config: cfg,
        bonding_curve: migrated,
    };
    assert_eq!(openclaw::sell(&mut sctx, 10, 0), Err(OpenClawError::AlreadyMigrated));
    assert_eq!(sctx.bonding_curve, migrated);
    let mut mctx = Migrate { payer: acct(5), global_config: cfg, bonding_curve: migrated };
    assert_eq!(openclaw::migrate(&mut mctx), Err(OpenClawError::AlreadyMigrated));
    assert_eq!(mctx.bonding_curve, migrated);
}

#[test]
fn update_config_requires_the_authority() {
    let cfg = demo_config();
    let mut ctx = UpdateConfig { authority: acct(99), global_config: cfg };
    let params = UpdateConfigParams {
        fee_bps: Some(50),
        migration_threshold: None,
        fee_recipient: None,
    };
    assert_eq!(
        openclaw::update_config(&mut ctx, params),
        Err(OpenClawError::Unauthorized)
    );
    assert_eq!(ctx.global_config, cfg);
}

#[test]
fn update_config_fee_above_cap_fails() {
    let cfg = demo_config();
    let mut ctx = UpdateConfig { authority: cfg.authority, global_config: cfg };
    let params = UpdateConfigParams {
        fee_bps: Some(1001),
        migration_threshold: Some(9),
        fee_recipient: None,
    };
    assert_eq!(
        openclaw::update_config(&mut ctx, params),
        Err(OpenClawError::InvalidFeeConfig)
    );
    // nothing is applied, the threshold included
    assert_eq!(ctx.global_config, cfg);
}

#[test]
fn update_config_fee_at_cap_succeeds() {
    let cfg = demo_config();
    let mut ctx = UpdateConfig { authority: cfg.authority, global_config: cfg };
    let params = UpdateConfigParams {
        fee_bps: Some(1000),
        migration_threshold: None,
        fee_recipient: None,
    };
    assert_eq!(openclaw::update_config(&mut ctx, params), Ok(()));
    assert_eq!(ctx.global_config.fee_bps, 1000);
    assert_eq!(ctx.global_config.migration_threshold, cfg.migration_threshold);
}

#[test]
fn update_config_assigns_only_supplied_fields() {
    let cfg = demo_config();
    let mut ctx = UpdateConfig { authority: cfg.authority, global_config: cfg };
    let params = UpdateConfigParams {
        fee_bps: None,
        migration_threshold: Some(777),
        fee_recipient: Some(acct(42)),
    };
    assert_eq!(openclaw::update_config(&mut ctx, params), Ok(()));
    assert_eq!(ctx.global_config.fee_bps, cfg.fee_bps);
    assert_eq!(ctx.global_config.migration_threshold, 777);
    assert_eq!(ctx.global_config.fee_recipient, acct(42));
    assert_eq!(ctx.global_config.authority, cfg.authority);
}

#[test]
fn update_config_with_no_fields_changes_nothing() {
    let cfg = demo_config();
    let mut ctx = UpdateConfig { authority: cfg.authority, global_config: cfg };
    let params = UpdateConfigParams {
        fee_bps: None,
        migration_threshold: None,
        fee_recipient: None,
    };
    assert_eq!(openclaw::update_config(&mut ctx, params), Ok(()));
    assert_eq!(ctx.global_config, cfg);
}
