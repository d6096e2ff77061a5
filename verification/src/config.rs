//! Driver-wide settings and their validation.
//!
//! A `Config` is built once with the documented defaults and then mutated
//! only through setters. Setters whose field has a datasheet constraint
//! check it and reject out-of-range values without touching the stored
//! configuration; the two inter-measurement-period setters additionally
//! check the datasheet relation against the *currently stored* dependent
//! field (convergence time, integration period), so callers must set the
//! dependent field first.

use vstd::prelude::*;
use crate::error::Error;

verus! {

/// Interrupt trigger condition for the ambient channel.
#[derive(Debug, Clone, Copy, PartialEq, Eq)]
pub enum AmbientInterruptMode {
    /// No interrupts will be triggered
    Disabled,
    /// Interrupt triggered when value < thresh_low
    LevelLow,
    /// Interrupt triggered when value > thresh_high
    LevelHigh,
    /// Interrupt triggered when value < thresh_low OR value > thresh_high
    OutOfWindow,
    /// Interrupt triggered when new sample is ready (Default)
    NewSampleReady,
}

/// Interrupt trigger condition for the range channel.
#[derive(Debug, Clone, Copy, PartialEq, Eq)]
pub enum RangeInterruptMode {
    /// No interrupts will be triggered
    Disabled,
    /// Interrupt triggered when value < thresh_low
    LevelLow,
    /// Interrupt triggered when value > thresh_high
    LevelHigh,
    /// Interrupt triggered when value < thresh_low OR value > thresh_high
    OutOfWindow,
    /// Interrupt triggered when new sample is ready (Default)
    NewSampleReady,
}

/// Bit pattern a range interrupt mode contributes to
/// SYSTEM__INTERRUPT_CONFIG_GPIO (bits 2:0).
pub open spec fn range_mode_bits(mode: RangeInterruptMode) -> u8 {
    match mode {
        RangeInterruptMode::Disabled => 0x00,
        RangeInterruptMode::LevelLow => 0x01,
        RangeInterruptMode::LevelHigh => 0x02,
        RangeInterruptMode::OutOfWindow => 0x03,
        RangeInterruptMode::NewSampleReady => 0x04,
    }
}

/// Bit pattern an ambient interrupt mode contributes to
/// SYSTEM__INTERRUPT_CONFIG_GPIO (bits 5:3).
pub open spec fn ambient_mode_bits(mode: AmbientInterruptMode) -> u8 {
    match mode {
        AmbientInterruptMode::Disabled => 0x00,
        AmbientInterruptMode::LevelLow => 0x08,
        AmbientInterruptMode::LevelHigh => 0x10,
        AmbientInterruptMode::OutOfWindow => 0x18,
        AmbientInterruptMode::NewSampleReady => 0x20,
    }
}

/// Bit pattern of a range interrupt mode.
pub fn range_mode_value(mode: RangeInterruptMode) -> (bits: u8)
    ensures
        bits == range_mode_bits(mode),
{
    match mode {
        RangeInterruptMode::Disabled => 0x00,
        RangeInterruptMode::LevelLow => 0x01,
        RangeInterruptMode::LevelHigh => 0x02,
        RangeInterruptMode::OutOfWindow => 0x03,
        RangeInterruptMode::NewSampleReady => 0x04,
    }
}

/// Bit pattern of an ambient interrupt mode.
pub fn ambient_mode_value(mode: AmbientInterruptMode) -> (bits: u8)
    ensures
        bits == ambient_mode_bits(mode),
{
    match mode {
        AmbientInterruptMode::Disabled => 0x00,
        AmbientInterruptMode::LevelLow => 0x08,
        AmbientInterruptMode::LevelHigh => 0x10,
        AmbientInterruptMode::OutOfWindow => 0x18,
        AmbientInterruptMode::NewSampleReady => 0x20,
    }
}

/// Config information for the driver.
#[derive(Debug, Clone, Copy, PartialEq, Eq)]
pub struct Config {
    /// Factory part-to-part range offset, captured from the device during
    /// initialization; not user-set.
    pub ptp_offset: u8,
    /// 7-bit bus address.
    pub address: u8,
    /// Range result scaler, 1..=3.
    pub range_scaling: u8,
    /// Ambient result scaler, 1..=15.
    pub ambient_scaling: u8,
    /// Max retry count for blocking reads.
    pub poll_max_loop: u16,
    /// Readout averaging period multiplier.
    pub readout_averaging_period_multiplier: u8,
    /// Range max convergence time in ms, 2..=63.
    pub range_max_convergence_time: u8,
    /// Period between range measurements in continuous mode, in ms.
    pub range_inter_measurement_period: u16,
    /// Range measurements between automatic VHV recalibrations; 0 disables.
    pub range_vhv_recalibration_rate: u8,
    /// Ambient analogue gain level, 0..=7.
    pub ambient_analogue_gain_level: u8,
    /// Ambient integration period in ms, 1..=256.
    pub ambient_integration_period: u16,
    /// Period between ambient measurements in continuous mode, in ms.
    pub ambient_inter_measurement_period: u16,
    /// Interrupt trigger condition for the range channel.
    pub range_interrupt_mode: RangeInterruptMode,
    /// Interrupt trigger condition for the ambient channel.
    pub ambient_interrupt_mode: AmbientInterruptMode,
    /// Low threshold for range interrupts, in raw device units.
    pub range_low_interrupt_threshold: u8,
    /// High threshold for range interrupts, in raw device units.
    pub range_high_interrupt_threshold: u8,
    /// Low threshold for ambient interrupts, in raw device units.
    pub ambient_low_interrupt_threshold: u16,
    /// High threshold for ambient interrupts, in raw device units.
    pub ambient_high_interrupt_threshold: u16,
}

/// Smallest range inter-measurement period the datasheet relation allows:
/// whichever is larger, 10 ms or the smallest value with
/// `convergence_time + 5 <= period * 0.9`, as the driver computes it.
pub open spec fn range_period_min(convergence_time: u8) -> int {
    let eq_min = (convergence_time + 5) * 10 / 9;
    if eq_min < 10 {
        10
    } else {
        eq_min
    }
}

/// A valid range inter-measurement period for the given stored convergence
/// time: a multiple of 10 ms, at most 2550 ms, and at least
/// [`range_period_min`].
pub open spec fn range_period_ok(convergence_time: u8, time_ms: u16) -> bool {
    &&& time_ms % 10 == 0
    &&& time_ms <= 2550
    &&& time_ms >= range_period_min(convergence_time)
}

/// Smallest ambient inter-measurement period the datasheet relation allows:
/// whichever is larger, 10 ms or the smallest value with
/// `integration_period * 1.1 <= period * 0.9`, as the driver computes it.
pub open spec fn ambient_period_min(integration_period: u16) -> int {
    let eq_min = integration_period * 11 / 9;
    if eq_min < 10 {
        10
    } else {
        eq_min
    }
}

/// A valid ambient inter-measurement period for the given stored
/// integration period: a multiple of 10 ms, at most 2560 ms, and at least
/// [`ambient_period_min`].
pub open spec fn ambient_period_ok(integration_period: u16, time_ms: u16) -> bool {
    &&& time_ms % 10 == 0
    &&& time_ms <= 2560
    &&& time_ms >= ambient_period_min(integration_period)
}

/// Every stored field is inside its datasheet bound. Established by
/// [`Config::new`] and preserved by every setter.
pub open spec fn config_wf(c: Config) -> bool {
    &&& 1 <= c.range_scaling <= 3
    &&& 1 <= c.ambient_scaling <= 15
    &&& 2 <= c.range_max_convergence_time <= 63
    &&& range_period_ok(c.range_max_convergence_time, c.range_inter_measurement_period)
    &&& c.ambient_analogue_gain_level <= 7
    &&& 1 <= c.ambient_integration_period <= 256
    &&& ambient_period_ok(c.ambient_integration_period, c.ambient_inter_measurement_period)
}

impl Config {
    /// Create new config struct with default values.
    ///
    /// Defaults follow the vendor's basic-ranging application note.
    pub fn new() -> (c: Config)
        ensures
            c == (Config {
                ptp_offset: 0,
                address: 0x29,
                range_scaling: 1,
                ambient_scaling: 1,
                poll_max_loop: 500,
                readout_averaging_period_multiplier: 48,
                range_max_convergence_time: 49,
                range_inter_measurement_period: 100,
                range_vhv_recalibration_rate: 255,
                ambient_analogue_gain_level: 0,
                ambient_integration_period: 100,
                ambient_inter_measurement_period: 500,
                range_interrupt_mode: RangeInterruptMode::NewSampleReady,
                ambient_interrupt_mode: AmbientInterruptMode::NewSampleReady,
                range_low_interrupt_threshold: 0,
                range_high_interrupt_threshold: 0xFF,
                ambient_low_interrupt_threshold: 0,
                ambient_high_interrupt_threshold: 0xFFFF,
            }),
            config_wf(c),
    {
        Config {
            ptp_offset: 0,
            address: 0x29,
            range_scaling: 1,
            ambient_scaling: 1,
            poll_max_loop: 500,
            readout_averaging_period_multiplier: 48,
            range_max_convergence_time: 49,
            range_inter_measurement_period: 100,
            range_vhv_recalibration_rate: 255,
            ambient_analogue_gain_level: 0,
            ambient_integration_period: 100,
            ambient_inter_measurement_period: 500,
            range_interrupt_mode: RangeInterruptMode::NewSampleReady,
            ambient_interrupt_mode: AmbientInterruptMode::NewSampleReady,
            range_low_interrupt_threshold: 0,
            range_high_interrupt_threshold: 0xFF,
            ambient_low_interrupt_threshold: 0,
            ambient_high_interrupt_threshold: 0xFFFF,
        }
    }

    /// Set the max number of loops during polling measurement.
    ///
    /// Default = 500.
    pub fn set_poll_max_loop(&mut self, max_loop: u16)
        ensures
            *final(self) == (Config { poll_max_loop: max_loop, ..*old(self) }),
    {
        self.poll_max_loop = max_loop;
    }

    /// Set the range max convergence time (ms), made up of the convergence
    /// time and sampling period.
    ///
    /// Min = 2 ms; Max = 63 ms; Default = 49 ms. A value outside those
    /// bounds is rejected and the stored configuration is unchanged.
    pub fn set_range_max_convergence_time(&mut self, time_ms: u8) -> (r: Result<(), Error<()>>)
        ensures
            2 <= time_ms <= 63 ==> r == Ok::<(), Error<()>>(()) && *final(self) == (Config {
                range_max_convergence_time: time_ms,
                ..*old(self)
            }),
            !(2 <= time_ms <= 63) ==> r == Err::<(), Error<()>>(
                Error::InvalidConfigurationValue(time_ms as u16),
            ) && *final(self) == *old(self),
    {
        if time_ms < 2 || time_ms > 63 {
            return Err(Error::InvalidConfigurationValue(time_ms as u16));
        }
        self.range_max_convergence_time = time_ms;
        Ok(())
    }

    /// Set the period between range measurements in continuous mode.
    ///
    /// Accepted iff the value is a multiple of 10 ms, at most 2550 ms, and
    /// at least [`range_period_min`] of the *currently stored* convergence
    /// time (set the convergence time first, or this check uses a stale
    /// bound). A rejected value leaves the stored configuration unchanged.
    pub fn set_range_inter_measurement_period(&mut self, time_ms: u16) -> (r: Result<
        (),
        Error<()>,
    >)
        ensures
            range_period_ok(old(self).range_max_convergence_time, time_ms) ==> r == Ok::<
                (),
                Error<()>,
            >(()) && *final(self) == (Config { range_inter_measurement_period: time_ms, ..*old(self) }),
            !range_period_ok(old(self).range_max_convergence_time, time_ms) ==> r == Err::<
                (),
                Error<()>,
            >(Error::InvalidConfigurationValue(time_ms)) && *final(self) == *old(self),
    {
        let min_eq_val: u16 = ((self.range_max_convergence_time as u16) + 5) * 10 / 9;
        let min: u16 = if 10 < min_eq_val {
            min_eq_val
        } else {
            10
        };
        if time_ms % 10 != 0 || time_ms < min || time_ms > 2550 {
            return Err(Error::InvalidConfigurationValue(time_ms));
        }
        self.range_inter_measurement_period = time_ms;
        Ok(())
    }

    /// Set the readout averaging period multiplier.
    ///
    /// Sampling period = 1.3 ms + 64.5 us * multiplier. Default = 48.
    pub fn set_readout_averaging_period_multiplier(&mut self, time_ms: u8)
        ensures
            *final(self) == (Config { readout_averaging_period_multiplier: time_ms, ..*old(self) }),
    {
        self.readout_averaging_period_multiplier = time_ms;
    }

    /// Set the range Very High Voltage (VHV) recalibration rate.
    ///
    /// A VHV calibration runs once at power-up and then automatically after
    /// every `rate_vhv` range measurements; 0 disables the automatic runs.
    pub fn set_vhv_recalibration_rate(&mut self, rate_vhv: u8)
        ensures
            *final(self) == (Config { range_vhv_recalibration_rate: rate_vhv, ..*old(self) }),
    {
        self.range_vhv_recalibration_rate = rate_vhv;
    }

    /// Set the ambient result scaler.
    ///
    /// Min = 1x; Max = 15x; Default = 1x. A value outside those bounds is
    /// rejected and the stored configuration is unchanged.
    pub fn set_ambient_result_scaler(&mut self, scaler: u8) -> (r: Result<(), Error<()>>)
        ensures
            1 <= scaler <= 15 ==> r == Ok::<(), Error<()>>(()) && *final(self) == (Config {
                ambient_scaling: scaler,
                ..*old(self)
            }),
            !(1 <= scaler <= 15) ==> r == Err::<(), Error<()>>(
                Error::InvalidConfigurationValue(scaler as u16),
            ) && *final(self) == *old(self),
    {
        if scaler < 1 || scaler > 15 {
            return Err(Error::InvalidConfigurationValue(scaler as u16));
        }
        self.ambient_scaling = scaler;
        Ok(())
    }

    /// Set the range scaling factor.
    ///
    /// Min = 1x; Max = 3x; Default = 1x. Raw range counts are reported in
    /// units of `scaler` mm, so a bigger factor raises the maximum range
    /// and lowers the resolution. A value outside the bounds is rejected
    /// and the stored configuration is unchanged.
    pub fn set_range_result_scaler(&mut self, scaler: u8) -> (r: Result<(), Error<()>>)
        ensures
            1 <= scaler <= 3 ==> r == Ok::<(), Error<()>>(()) && *final(self) == (Config {
                range_scaling: scaler,
                ..*old(self)
            }),
            !(1 <= scaler <= 3) ==> r == Err::<(), Error<()>>(
                Error::InvalidConfigurationValue(scaler as u16),
            ) && *final(self) == *old(self),
    {
        if scaler < 1 || scaler > 3 {
            return Err(Error::InvalidConfigurationValue(scaler as u16));
        }
        self.range_scaling = scaler;
        Ok(())
    }

    /// Set the analogue gain level for the ambient light sensor.
    ///
    /// Level Min = 0 (gain 1.01); Max = 7 (gain 40); Default = 0. A level
    /// above 7 is rejected and the stored configuration is unchanged.
    pub fn set_ambient_analogue_gain_level(&mut self, level: u8) -> (r: Result<(), Error<()>>)
        ensures
            level <= 7 ==> r == Ok::<(), Error<()>>(()) && *final(self) == (Config {
                ambient_analogue_gain_level: level,
                ..*old(self)
            }),
            level > 7 ==> r == Err::<(), Error<()>>(
                Error::InvalidConfigurationValue(level as u16),
            ) && *final(self) == *old(self),
    {
        if level > 7 {
            return Err(Error::InvalidConfigurationValue(level as u16));
        }
        self.ambient_analogue_gain_level = level;
        Ok(())
    }

    /// Set the integration period for ambient light measurement.
    ///
    /// Min = 1 ms; Max = 256 ms; Default = 100 ms. A value outside those
    /// bounds is rejected and the stored configuration is unchanged.
    pub fn set_ambient_integration_period(&mut self, time_ms: u16) -> (r: Result<(), Error<()>>)
        ensures
            1 <= time_ms <= 256 ==> r == Ok::<(), Error<()>>(()) && *final(self) == (Config {
                ambient_integration_period: time_ms,
                ..*old(self)
            }),
            !(1 <= time_ms <= 256) ==> r == Err::<(), Error<()>>(
                Error::InvalidConfigurationValue(time_ms),
            ) && *final(self) == *old(self),
    {
        if time_ms < 1 || time_ms > 256 {
            return Err(Error::InvalidConfigurationValue(time_ms));
        }
        self.ambient_integration_period = time_ms;
        Ok(())
    }

    /// Set the period between ambient measurements in continuous mode.
    ///
    /// Accepted iff the value is a multiple of 10 ms, at most 2560 ms, and
    /// at least [`ambient_period_min`] of the *currently stored*
    /// integration period (set the integration period first, or this check
    /// uses a stale bound). A rejected value leaves the stored
    /// configuration unchanged.
    pub fn set_ambient_inter_measurement_period(&mut self, time_ms: u16) -> (r: Result<
        (),
        Error<()>,
    >)
        ensures
            ambient_period_ok(old(self).ambient_integration_period, time_ms) ==> r == Ok::<
                (),
                Error<()>,
            >(()) && *final(self) == (Config { ambient_inter_measurement_period: time_ms, ..*old(self) }),
            !ambient_period_ok(old(self).ambient_integration_period, time_ms) ==> r == Err::<
                (),
                Error<()>,
            >(Error::InvalidConfigurationValue(time_ms)) && *final(self) == *old(self),
    {
        let min_eq_val_wide: u32 = (self.ambient_integration_period as u32) * 11 / 9;
        let min: u32 = if 10 < min_eq_val_wide {
            min_eq_val_wide
        } else {
            10
        };
        if time_ms % 10 != 0 || (time_ms as u32) < min || time_ms > 2560 {
            return Err(Error::InvalidConfigurationValue(time_ms));
        }
        self.ambient_inter_measurement_period = time_ms;
        Ok(())
    }

    /// Set the range interrupt mode.
    pub fn set_range_interrupt_mode(&mut self, interrupt_mode: RangeInterruptMode)
        ensures
            *final(self) == (Config { range_interrupt_mode: interrupt_mode, ..*old(self) }),
    {
        self.range_interrupt_mode = interrupt_mode;
    }

    /// Set the low threshold for range interrupts, in raw device units.
    ///
    /// Default = 0. The device multiplies it by the range result scaler.
    pub fn set_range_low_interrupt_threshold(&mut self, threshold: u8)
        ensures
            *final(self) == (Config { range_low_interrupt_threshold: threshold, ..*old(self) }),
    {
        self.range_low_interrupt_threshold = threshold;
    }

    /// Set the high threshold for range interrupts, in raw device units.
    ///
    /// Default = 255. The device multiplies it by the range result scaler.
    pub fn set_range_high_interrupt_threshold(&mut self, threshold: u8)
        ensures
            *final(self) == (Config { range_high_interrupt_threshold: threshold, ..*old(self) }),
    {
        self.range_high_interrupt_threshold = threshold;
    }

    /// Set the ambient light sensor interrupt mode.
    pub fn set_ambient_interrupt_mode(&mut self, interrupt_mode: AmbientInterruptMode)
        ensures
            *final(self) == (Config { ambient_interrupt_mode: interrupt_mode, ..*old(self) }),
    {
        self.ambient_interrupt_mode = interrupt_mode;
    }

    /// Set the low threshold for ambient interrupts, in raw device units.
    ///
    /// Default = 0. The device multiplies it by the ambient result scaler.
    pub fn set_ambient_low_interrupt_threshold(&mut self, threshold: u16)
        ensures
            *final(self) == (Config { ambient_low_interrupt_threshold: threshold, ..*old(self) }),
    {
        self.ambient_low_interrupt_threshold = threshold;
    }

    /// Set the high threshold for ambient interrupts, in raw device units.
    ///
    /// Default = 0xFFFF. The device multiplies it by the ambient result
    /// scaler.
    pub fn set_ambient_high_interrupt_threshold(&mut self, threshold: u16)
        ensures
            *final(self) == (Config { ambient_high_interrupt_threshold: threshold, ..*old(self) }),
    {
        self.ambient_high_interrupt_threshold = threshold;
    }

    /// Set the bus address used for the initial connection.
    pub fn set_i2c_address(&mut self, address: u8)
        ensures
            *final(self) == (Config { address: address, ..*old(self) }),
    {
        self.address = address;
    }
}

/// Runtime test of [`config_wf`], for callers that assembled or mutated a
/// configuration without tracking its validity.
pub fn config_is_wf(c: &Config) -> (wf: bool)
    ensures
        wf == config_wf(*c),
{
    let conv_min: u16 = ((c.range_max_convergence_time as u16) + 5) * 10 / 9;
    let range_min: u16 = if 10 < conv_min {
        conv_min
    } else {
        10
    };
    let integ_min_wide: u32 = (c.ambient_integration_period as u32) * 11 / 9;
    let ambient_min: u32 = if 10 < integ_min_wide {
        integ_min_wide
    } else {
        10
    };
    1 <= c.range_scaling && c.range_scaling <= 3 && 1 <= c.ambient_scaling && c.ambient_scaling
        <= 15 && 2 <= c.range_max_convergence_time && c.range_max_convergence_time <= 63
        && c.range_inter_measurement_period % 10 == 0 && c.range_inter_measurement_period <= 2550
        && c.range_inter_measurement_period >= range_min && c.ambient_analogue_gain_level <= 7 && 1
        <= c.ambient_integration_period && c.ambient_integration_period <= 256
        && c.ambient_inter_measurement_period % 10 == 0 && c.ambient_inter_measurement_period
        <= 2560 && (c.ambient_inter_measurement_period as u32) >= ambient_min
}

/// Round up to the next multiple of 10.
pub open spec fn round_up_ten(x: int) -> int {
    ((x + 9) / 10) * 10
}

/// The range inter-measurement-period validator accepts the stored
/// convergence bound rounded up to the next multiple of 10 ms, and rejects
/// the multiple of 10 one step below it.
pub proof fn lemma_range_period_acceptance_boundary(convergence_time: u8)
    requires
        2 <= convergence_time <= 63,
    ensures
        range_period_ok(convergence_time, round_up_ten(range_period_min(convergence_time)) as u16),
        !range_period_ok(
            convergence_time,
            (round_up_ten(range_period_min(convergence_time)) - 10) as u16,
        ),
{
    let m = range_period_min(convergence_time);
    let r = round_up_ten(m);
    assert(10 <= m <= 75);
    assert(m <= r < m + 10 && r % 10 == 0) by {
        lemma_round_up_ten(m);
    }
    assert(0 <= r - 10 < m);
    assert((r - 10) % 10 == 0) by {
        assert(r - 10 == ((r / 10 - 1)) * 10);
        assert(((r / 10 - 1) * 10) % 10 == 0) by (nonlinear_arith);
    }
}

proof fn lemma_round_up_ten(x: int)
    requires
        x >= 0,
    ensures
        x <= round_up_ten(x) < x + 10,
        round_up_ten(x) % 10 == 0,
{
    let q = (x + 9) / 10;
    assert(q * 10 <= x + 9 && x + 9 < (q + 1) * 10) by (nonlinear_arith)
        requires
            q == (x + 9) / 10 && x >= 0,
    ;
    assert((q * 10) % 10 == 0) by (nonlinear_arith);
}

} // verus!
