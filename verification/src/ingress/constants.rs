//! Fixed bounds of the ingress contract.

use vstd::prelude::*;

verus! {

/// Slow-request warning threshold in milliseconds.
pub const SLOW_REQUEST_THRESHOLD_MS: u64 = 1000;

/// The largest accepted `temperature`, 2.0, by its bits.
pub const MAX_TEMPERATURE_BITS: u64 = 0x4000_0000_0000_0000;

/// The largest accepted `top_p`, 1.0, by its bits.
pub const MAX_TOP_P_BITS: u64 = 0x3ff0_0000_0000_0000;

} // verus!
