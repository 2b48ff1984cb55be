//! Migrating a curve to an external liquidity venue. The engine records
//! the terminal status flip once the funding threshold is met; the actual
//! pool creation and permanent liquidity lock-up at the destination venue
//! are an extension point owned by the hosting runtime and are not
//! specified here.

use vstd::prelude::*;
use crate::error::OpenClawError;
use crate::state::{AccountId, BondingCurve, CurveStatus, GlobalConfig};

verus! {

/// Validated records and identities a migration operates on; any identity
/// may request it.
#[derive(Clone, Copy, Debug, PartialEq, Eq, Structural)]
pub struct Migrate {
    /// The identity requesting the migration.
    pub payer: AccountId,
    /// The singleton configuration record (read only).
    pub global_config: GlobalConfig,
    /// The curve being migrated.
    pub bonding_curve: BondingCurve,
}

/// The complete outcome of a migration: repeated migration and an
/// unfunded curve are refused unchanged; otherwise the status flips to
/// `Migrated`, terminally.
pub open spec fn migrate_result(c: BondingCurve, cfg: GlobalConfig) -> (Result<
    (),
    OpenClawError,
>, BondingCurve) {
    if c.status is Migrated {
        (Err(OpenClawError::AlreadyMigrated), c)
    } else if c.real_sol_reserves < cfg.migration_threshold {
        (Err(OpenClawError::MigrationThresholdNotReached), c)
    } else {
        (Ok(()), BondingCurve { status: CurveStatus::Migrated, ..c })
    }
}

/// Freeze the curve once its real currency reserves have reached the
/// configured threshold. The flip is one-way: no operation of the engine
/// ever returns a migrated curve to trading.
pub fn handler(ctx: &mut Migrate) -> (r: Result<(), OpenClawError>)
    ensures
        ({
            let (res, curve) = migrate_result(old(ctx).bonding_curve, old(ctx).global_config);
            &&& r == res
            &&& final(ctx).bonding_curve == curve
        }),
        final(ctx).global_config == old(ctx).global_config,
        final(ctx).payer == old(ctx).payer,
{
    if ctx.bonding_curve.status == CurveStatus::Migrated {
        return Err(OpenClawError::AlreadyMigrated);
    }
    if ctx.bonding_curve.real_sol_reserves < ctx.global_config.migration_threshold {
        return Err(OpenClawError::MigrationThresholdNotReached);
    }
    ctx.bonding_curve.status = CurveStatus::Migrated;
    Ok(())
}

} // verus!
