//! Conversion of raw device counts into physical units.

use vstd::prelude::*;
use crate::registers::gain_centi;
use crate::registers::gain_centi_spec;

verus! {

/// A raw range count in millimeters: the device reports range in units of
/// `range_scaling` mm.
pub open spec fn range_mm_spec(range_scaling: u8, raw_range: u8) -> int {
    range_scaling * raw_range
}

/// Ambient light in thousandths of a lux, truncated: with the lux
/// resolution factor of 0.32, `lux = (0.32 * 100 / gain) * (raw / period)`,
/// the gain being `gain_centi / 100`.
pub open spec fn millilux_spec(gain_level: u8, integration_period_ms: u16, raw_ambient: u16) -> int {
    3_200_000 * raw_ambient / (gain_centi_spec(gain_level) * integration_period_ms)
}

/// Convert a raw range count to millimeters under a range scaling factor.
pub fn range_to_mm(range_scaling: u8, raw_range: u8) -> (mm: u16)
    ensures
        mm == range_mm_spec(range_scaling, raw_range),
{
    assert(range_scaling * raw_range <= 255 * 255) by (nonlinear_arith)
        requires
            range_scaling <= 255 && raw_range <= 255,
    ;
    (range_scaling as u16) * (raw_range as u16)
}

/// Convert a raw ambient count to thousandths of a lux, truncated.
pub fn ambient_to_millilux(gain_level: u8, integration_period_ms: u16, raw_ambient: u16) -> (millilux:
    u64)
    requires
        gain_level <= 7,
        integration_period_ms >= 1,
    ensures
        millilux == millilux_spec(gain_level, integration_period_ms, raw_ambient),
{
    let centi = gain_centi(gain_level);
    assert(1 <= centi * integration_period_ms <= 4000 * 65535) by (nonlinear_arith)
        requires
            101 <= centi <= 4000 && 1 <= integration_period_ms <= 65535,
    ;
    let divisor: u64 = (centi as u64) * (integration_period_ms as u64);
    3_200_000u64 * (raw_ambient as u64) / divisor
}

} // verus!
