//! Translation of user-facing bandwidth settings (kilobytes per second) into
//! engine-facing byte rates (bytes per second).

use vstd::prelude::*;

verus! {

/// Byte-rate caps for one transfer, one per direction.  `None` means no limit
/// is imposed in that direction; a present value is strictly positive, since a
/// zero-byte rate would mean no throughput at all and must never be handed to
/// the engine.
pub struct RateLimits {
    pub upload_bps: Option<u32>,
    pub download_bps: Option<u32>,
}

impl RateLimits {
    /// A present cap is never zero.
    pub open spec fn wf(&self) -> bool {
        &&& self.upload_bps != Some(0u32)
        &&& self.download_bps != Some(0u32)
    }
}

/// What the translator returns: `r` kilobytes per second becomes `r * 1024`
/// bytes per second, except that an absent setting, a zero setting, or a
/// product that does not fit the engine's 32-bit rate field all collapse to
/// "unlimited".
pub open spec fn spec_rate_limit_bps(kb_per_s: Option<u64>) -> Option<u32> {
    match kb_per_s {
        None => None,
        Some(r) => if r == 0 || r * 1024 > u32::MAX {
            None
        } else {
            Some((r * 1024) as u32)
        },
    }
}

/// Translate an optional kilobytes-per-second setting into an optional
/// strictly positive bytes-per-second cap.  Overflow and zero are silent
/// fallbacks to "unlimited", never errors.
pub fn rate_limit_bps(kb_per_s: Option<u64>) -> (r: Option<u32>)
    ensures
        r == spec_rate_limit_bps(kb_per_s),
        r != Some(0u32),
{
    match kb_per_s {
        None => None,
        Some(rate) => {
            if rate == 0 || rate > u32::MAX as u64 / 1024 {
                None
            } else {
                Some((rate * 1024) as u32)
            }
        },
    }
}

} // verus!
