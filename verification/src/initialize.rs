//! Creating the singleton protocol configuration. The hosting runtime's
//! create-once record semantics make a second initialization fail before
//! this logic runs, so the handler itself is infallible.
//!
//! Note: unlike the administrative update, initialization places no bound
//! on `fee_bps`; the gap in validation coverage is part of the protocol's
//! behaviour and is kept as it is.

use vstd::prelude::*;
use crate::state::{AccountId, GlobalConfig};

verus! {

/// Parameters of the one-time initialization.
#[derive(Clone, Copy, Debug, PartialEq, Eq, Structural)]
pub struct InitializeParams {
    /// Platform fee in basis points.
    pub fee_bps: u16,
    /// Real currency reserve (in lamports) a curve needs before migration.
    pub migration_threshold: u64,
    /// Seed for every new curve's virtual currency reserves.
    pub initial_virtual_sol: u64,
    /// Seed for every new curve's virtual token reserves.
    pub initial_virtual_tokens: u64,
}

/// Validated identities the initialization operates on.
#[derive(Clone, Copy, Debug, PartialEq, Eq, Structural)]
pub struct Initialize {
    /// The deployer, who becomes the configuration's authority.
    pub authority: AccountId,
    /// The identity credited with trading fees.
    pub fee_recipient: AccountId,
}

/// The configuration record initialization writes: the given parameters
/// and identities, with both aggregate counters at zero.
pub open spec fn initial_config(ctx: Initialize, params: InitializeParams) -> GlobalConfig {
    GlobalConfig {
        authority: ctx.authority,
        fee_recipient: ctx.fee_recipient,
        fee_bps: params.fee_bps,
        migration_threshold: params.migration_threshold,
        initial_virtual_sol: params.initial_virtual_sol,
        initial_virtual_tokens: params.initial_virtual_tokens,
        total_tokens: 0u64,
        total_volume: 0u64,
    }
}

/// Build the singleton configuration from the deployer's parameters.
pub fn handler(ctx: &Initialize, params: InitializeParams) -> (config: GlobalConfig)
    ensures
        config == initial_config(*ctx, params),
{
    GlobalConfig {
        authority: ctx.authority,
        fee_recipient: ctx.fee_recipient,
        fee_bps: params.fee_bps,
        migration_threshold: params.migration_threshold,
        initial_virtual_sol: params.initial_virtual_sol,
        initial_virtual_tokens: params.initial_virtual_tokens,
        total_tokens: 0,
        total_volume: 0,
    }
}

} // verus!
