//! Register map of the VL6180X: bus addresses of the registers the driver
//! touches, together with the fixed code tables the datasheet prescribes.

use vstd::prelude::*;

verus! {

// 8-bit registers.
pub const IDENTIFICATION__MODEL_ID: u16 = 0x000;
pub const SYSTEM__MODE_GPIO1: u16 = 0x011;
pub const SYSTEM__INTERRUPT_CONFIG_GPIO: u16 = 0x014;
pub const SYSTEM__INTERRUPT_CLEAR: u16 = 0x015;
pub const SYSTEM__FRESH_OUT_OF_RESET: u16 = 0x016;
pub const SYSRANGE__THRESH_HIGH: u16 = 0x019;
pub const SYSRANGE__THRESH_LOW: u16 = 0x01A;
pub const SYSRANGE__INTERMEASUREMENT_PERIOD: u16 = 0x01B;
pub const SYSRANGE__MAX_CONVERGENCE_TIME: u16 = 0x01C;
pub const SYSRANGE__CROSSTALK_VALID_HEIGHT: u16 = 0x021;
pub const SYSRANGE__PART_TO_PART_RANGE_OFFSET: u16 = 0x024;
pub const SYSRANGE__RANGE_CHECK_ENABLES: u16 = 0x02D;
pub const SYSRANGE__VHV_RECALIBRATE: u16 = 0x02E;
pub const SYSRANGE__VHV_REPEAT_RATE: u16 = 0x031;
pub const SYSALS__THRESH_HIGH: u16 = 0x03A;
pub const SYSALS__THRESH_LOW: u16 = 0x03C;
pub const SYSALS__INTERMEASUREMENT_PERIOD: u16 = 0x03E;
pub const SYSALS__ANALOGUE_GAIN: u16 = 0x03F;
pub const SYSALS__INTEGRATION_PERIOD: u16 = 0x040;
pub const RESULT__RANGE_STATUS: u16 = 0x04D;
pub const RESULT__ALS_STATUS: u16 = 0x04E;
pub const RESULT__INTERRUPT_STATUS_GPIO: u16 = 0x04F;
pub const RESULT__ALS_VAL: u16 = 0x050;
pub const RESULT__RANGE_VAL: u16 = 0x062;
pub const READOUT__AVERAGING_SAMPLE_PERIOD: u16 = 0x10A;
pub const FIRMWARE__RESULT_SCALER: u16 = 0x120;
pub const I2C_SLAVE__DEVICE_ADDRESS: u16 = 0x212;
pub const INTERLEAVED_MODE__ENABLE: u16 = 0x2A3;

// 16-bit registers.
pub const RANGE_SCALER: u16 = 0x096;

// SYSTEM__INTERRUPT_CLEAR bit codes.
pub const INTERRUPT_CLEAR_RANGE: u8 = 0x01;
pub const INTERRUPT_CLEAR_AMBIENT: u8 = 0x02;
pub const INTERRUPT_CLEAR_ERROR: u8 = 0x04;

// SYSTEM__MODE_GPIO1 field values: polarity bit 5, select in bits 4:1.
pub const GPIO1_POLARITY_ACTIVE_HIGH: u8 = 0x20;
pub const GPIO1_SELECT_INTERRUPT_OUTPUT: u8 = 0x10;
pub const GPIO1_SELECT_OFF: u8 = 0x00;

/// SYSTEM__FRESH_OUT_OF_RESET reads this sentinel once the device has booted.
pub const FRESH_OUT_OF_RESET_SENTINEL: u8 = 0x01;

/// SYSALS__ANALOGUE_GAIN register code for each analogue gain level 0..=7.
pub open spec fn gain_code_spec(level: u8) -> u8 {
    if level == 0 {
        0x46
    } else if level == 1 {
        0x45
    } else if level == 2 {
        0x44
    } else if level == 3 {
        0x43
    } else if level == 4 {
        0x42
    } else if level == 5 {
        0x41
    } else if level == 6 {
        0x40
    } else {
        0x47
    }
}

/// Analogue gain of each level, in hundredths (level 0 is a gain of 1.01).
pub open spec fn gain_centi_spec(level: u8) -> u16 {
    if level == 0 {
        101
    } else if level == 1 {
        128
    } else if level == 2 {
        172
    } else if level == 3 {
        260
    } else if level == 4 {
        521
    } else if level == 5 {
        1032
    } else if level == 6 {
        2000
    } else {
        4000
    }
}

/// RANGE_SCALER register code for each range scaling factor 1..=3.
pub open spec fn range_scaler_code_spec(scaling: u8) -> u16 {
    if scaling == 1 {
        253
    } else if scaling == 2 {
        127
    } else {
        84
    }
}

/// Look up the SYSALS__ANALOGUE_GAIN register code of a gain level.
pub fn gain_code(level: u8) -> (code: u8)
    requires
        level <= 7,
    ensures
        code == gain_code_spec(level),
{
    match level {
        0 => 0x46,
        1 => 0x45,
        2 => 0x44,
        3 => 0x43,
        4 => 0x42,
        5 => 0x41,
        6 => 0x40,
        _ => 0x47,
    }
}

/// Look up the analogue gain of a gain level, in hundredths.
pub fn gain_centi(level: u8) -> (centi: u16)
    requires
        level <= 7,
    ensures
        centi == gain_centi_spec(level),
{
    match level {
        0 => 101,
        1 => 128,
        2 => 172,
        3 => 260,
        4 => 521,
        5 => 1032,
        6 => 2000,
        _ => 4000,
    }
}

/// Look up the RANGE_SCALER register code of a range scaling factor.
pub fn range_scaler_code(scaling: u8) -> (code: u16)
    requires
        1 <= scaling <= 3,
    ensures
        code == range_scaler_code_spec(scaling),
{
    match scaling {
        1 => 253,
        2 => 127,
        _ => 84,
    }
}

} // verus!
