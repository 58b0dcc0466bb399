//! Platform-wide constants: bootstrap parameters and the partial
//! liquidation share.
use vstd::prelude::*;

verus! {

/// Vault size that ends the bootstrap phase ($10k, 6 decimals).
pub const BOOTSTRAP_TARGET_VAULT: u64 = 10_000_000_000;
/// Trading fee during bootstrap, in basis points (0.28%).
pub const BOOTSTRAP_FEE_BPS: u16 = 28;
/// MMT reward multiplier during bootstrap.
pub const BOOTSTRAP_MMT_MULTIPLIER: u64 = 2;
/// Share of the unhealthy part of a position that one liquidation closes,
/// in basis points (50%).
pub const PARTIAL_LIQUIDATION_BPS: u16 = 5000;

} // verus!
