//! Administrative update of the protocol configuration. Only the recorded
//! authority may update anything; a supplied fee rate is bounded by
//! `MAX_FEE_BPS`, while the threshold and fee recipient, when supplied,
//! are assigned unconditionally.

use vstd::prelude::*;
use crate::error::OpenClawError;
use crate::state::{AccountId, GlobalConfig, MAX_FEE_BPS};

verus! {

/// The fields an update may change; a `None` leaves the field as it is.
#[derive(Clone, Copy, Debug)]
pub struct UpdateConfigParams {
    /// New platform fee in basis points, at most `MAX_FEE_BPS`.
    pub fee_bps: Option<u16>,
    /// New migration threshold (in lamports).
    pub migration_threshold: Option<u64>,
    /// New fee recipient.
    pub fee_recipient: Option<AccountId>,
}

/// Validated records and identities an update operates on.
#[derive(Clone, Copy, Debug)]
pub struct UpdateConfig {
    /// The identity requesting the update; must be the configuration's
    /// authority.
    pub authority: AccountId,
    /// The singleton configuration record.
    pub global_config: GlobalConfig,
}

/// The complete outcome of an update: a caller other than the authority,
/// or a supplied fee rate above `MAX_FEE_BPS`, is refused with the record
/// unchanged; otherwise each supplied field is assigned and the rest keep
/// their values.
pub open spec fn update_config_result(
    cfg: GlobalConfig,
    authority: AccountId,
    params: UpdateConfigParams,
) -> (Result<(), OpenClawError>, GlobalConfig) {
    if authority != cfg.authority {
        (Err(OpenClawError::Unauthorized), cfg)
    } else if match params.fee_bps {
        Some(fee_bps) => fee_bps > MAX_FEE_BPS,
        None => false,
    } {
        (Err(OpenClawError::InvalidFeeConfig), cfg)
    } else {
        (
            Ok(()),
            GlobalConfig {
                fee_bps: match params.fee_bps {
                    Some(fee_bps) => fee_bps,
                    None => cfg.fee_bps,
                },
                migration_threshold: match params.migration_threshold {
                    Some(threshold) => threshold,
                    None => cfg.migration_threshold,
                },
                fee_recipient: match params.fee_recipient {
                    Some(recipient) => recipient,
                    None => cfg.fee_recipient,
                },
                ..cfg
            },
        )
    }
}

/// Apply an administrative update. Fails with `Unauthorized` exactly when
/// the caller is not the recorded authority, and with `InvalidFeeConfig`
/// exactly when a supplied fee rate exceeds `MAX_FEE_BPS`; on success the
/// supplied fields are assigned atomically.
pub fn handler(ctx: &mut UpdateConfig, params: UpdateConfigParams) -> (r: Result<
    (),
    OpenClawError,
>)
    ensures
        ({
            let (res, config) = update_config_result(
                old(ctx).global_config,
                old(ctx).authority,
                params,
            );
            &&& r == res
            &&& final(ctx).global_config == config
        }),
        final(ctx).authority == old(ctx).authority,
{
    if !(ctx.authority == ctx.global_config.authority) {
        return Err(OpenClawError::Unauthorized);
    }
    if let Some(fee_bps) = params.fee_bps {
        if fee_bps > MAX_FEE_BPS {
            return Err(OpenClawError::InvalidFeeConfig);
        }
        ctx.global_config.fee_bps = fee_bps;
    }
    if let Some(threshold) = params.migration_threshold {
        ctx.global_config.migration_threshold = threshold;
    }
    if let Some(recipient) = params.fee_recipient {
        ctx.global_config.fee_recipient = recipient;
    }
    Ok(())
}

} // verus!
