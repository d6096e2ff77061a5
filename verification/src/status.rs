//! Decoding of device-reported status bytes.
//!
//! The sensor reports the outcome of each measurement in a status register
//! per channel, and signals readiness through RESULT__INTERRUPT_STATUS_GPIO.
//! Every decoder here is a pure function on the raw byte; a byte outside the
//! closed set of documented values is reported as unmapped, never silently
//! treated as some nearby code.

use vstd::prelude::*;

verus! {

/// Device error conditions reported in RESULT__RANGE_STATUS.
///
/// Each variant corresponds to one documented value of the register; the
/// raw encoding carries the error code in the upper four bits.
#[derive(Debug, Clone, Copy, PartialEq, Eq)]
pub enum RangeStatusErrorCode {
    NoError,
    VcselContinuityTest,
    VcselWatchdogTest,
    VcselWatchdog,
    Pll1Lock,
    Pll2Lock,
    EarlyConvergenceEstimate,
    MaxConvergence,
    NoTargetIgnore,
    MaxSignalToNoiseRatio,
    RawRangingAlgoUnderflow,
    RawRangingAlgoOverflow,
    RangingAlgoUnderflow,
    RangingAlgoOverflow,
}

/// Device error conditions reported in RESULT__ALS_STATUS.
#[derive(Debug, Clone, Copy, PartialEq, Eq)]
pub enum AmbientStatusErrorCode {
    NoError,
    OverflowError,
    UnderflowError,
}

/// The documented RESULT__RANGE_STATUS values, decoded by exact table
/// lookup; anything else is unmapped (`None`).
pub open spec fn range_status_decode(raw: u8) -> Option<RangeStatusErrorCode> {
    if raw == 0x00 {
        Some(RangeStatusErrorCode::NoError)
    } else if raw == 0x10 {
        Some(RangeStatusErrorCode::VcselContinuityTest)
    } else if raw == 0x20 {
        Some(RangeStatusErrorCode::VcselWatchdogTest)
    } else if raw == 0x30 {
        Some(RangeStatusErrorCode::VcselWatchdog)
    } else if raw == 0x40 {
        Some(RangeStatusErrorCode::Pll1Lock)
    } else if raw == 0x50 {
        Some(RangeStatusErrorCode::Pll2Lock)
    } else if raw == 0x60 {
        Some(RangeStatusErrorCode::EarlyConvergenceEstimate)
    } else if raw == 0x70 {
        Some(RangeStatusErrorCode::MaxConvergence)
    } else if raw == 0x80 {
        Some(RangeStatusErrorCode::NoTargetIgnore)
    } else if raw == 0xB0 {
        Some(RangeStatusErrorCode::MaxSignalToNoiseRatio)
    } else if raw == 0xC0 {
        Some(RangeStatusErrorCode::RawRangingAlgoUnderflow)
    } else if raw == 0xD0 {
        Some(RangeStatusErrorCode::RawRangingAlgoOverflow)
    } else if raw == 0xE0 {
        Some(RangeStatusErrorCode::RangingAlgoUnderflow)
    } else if raw == 0xF0 {
        Some(RangeStatusErrorCode::RangingAlgoOverflow)
    } else {
        None
    }
}

/// The documented RESULT__ALS_STATUS values, decoded by exact table lookup.
pub open spec fn ambient_status_decode(raw: u8) -> Option<AmbientStatusErrorCode> {
    if raw == 0x00 {
        Some(AmbientStatusErrorCode::NoError)
    } else if raw == 0x10 {
        Some(AmbientStatusErrorCode::OverflowError)
    } else if raw == 0x20 {
        Some(AmbientStatusErrorCode::UnderflowError)
    } else {
        None
    }
}

/// Decode a raw RESULT__RANGE_STATUS byte. `None` means the byte matches no
/// documented value, which callers must report as an unknown register code
/// rather than as any mapped error.
pub fn range_status_from_raw(raw: u8) -> (decoded: Option<RangeStatusErrorCode>)
    ensures
        decoded == range_status_decode(raw),
{
    match raw {
        0x00 => Some(RangeStatusErrorCode::NoError),
        0x10 => Some(RangeStatusErrorCode::VcselContinuityTest),
        0x20 => Some(RangeStatusErrorCode::VcselWatchdogTest),
        0x30 => Some(RangeStatusErrorCode::VcselWatchdog),
        0x40 => Some(RangeStatusErrorCode::Pll1Lock),
        0x50 => Some(RangeStatusErrorCode::Pll2Lock),
        0x60 => Some(RangeStatusErrorCode::EarlyConvergenceEstimate),
        0x70 => Some(RangeStatusErrorCode::MaxConvergence),
        0x80 => Some(RangeStatusErrorCode::NoTargetIgnore),
        0xB0 => Some(RangeStatusErrorCode::MaxSignalToNoiseRatio),
        0xC0 => Some(RangeStatusErrorCode::RawRangingAlgoUnderflow),
        0xD0 => Some(RangeStatusErrorCode::RawRangingAlgoOverflow),
        0xE0 => Some(RangeStatusErrorCode::RangingAlgoUnderflow),
        0xF0 => Some(RangeStatusErrorCode::RangingAlgoOverflow),
        _ => None,
    }
}

/// Decode a raw RESULT__ALS_STATUS byte; `None` means unmapped.
pub fn ambient_status_from_raw(raw: u8) -> (decoded: Option<AmbientStatusErrorCode>)
    ensures
        decoded == ambient_status_decode(raw),
{
    match raw {
        0x00 => Some(AmbientStatusErrorCode::NoError),
        0x10 => Some(AmbientStatusErrorCode::OverflowError),
        0x20 => Some(AmbientStatusErrorCode::UnderflowError),
        _ => None,
    }
}

/// RESULT__INTERRUPT_STATUS_GPIO carries the range event class in its three
/// low bits: all clear means no range event has been latched.
pub open spec fn no_range_event(status: u8) -> bool {
    status & 0x07 == 0
}

/// RESULT__INTERRUPT_STATUS_GPIO carries the ambient event class in bits
/// 5:3: all clear means no ambient event has been latched.
pub open spec fn no_ambient_event(status: u8) -> bool {
    status & 0x38 == 0
}

/// Test whether an interrupt status byte reports no range event.
pub fn has_no_range_event(status: u8) -> (quiet: bool)
    ensures
        quiet == no_range_event(status),
{
    status & 0x07 == 0
}

/// Test whether an interrupt status byte reports no ambient event.
pub fn has_no_ambient_event(status: u8) -> (quiet: bool)
    ensures
        quiet == no_ambient_event(status),
{
    status & 0x38 == 0
}

} // verus!
