//! The driver handle: a configuration plus an explicit lifecycle state.
//!
//! The handle gates each operation on the state the device must be in
//! (powered off, waiting for boot, booted, ready) and hands out the
//! per-operation sequencers. The caller owns the bus and the shutdown pin;
//! the handle only decides, and records the effects the caller reports
//! back.

use vstd::prelude::*;
use crate::bus::BusOp;
use crate::config::Config;
use crate::config::config_wf;
use crate::convert::ambient_to_millilux;
use crate::convert::millilux_spec;
use crate::convert::range_mm_spec;
use crate::convert::range_to_mm;
use crate::error::Error;
use crate::init::InitSequencer;
use crate::init::ScalingSequencer;
use crate::init::init_applicable;
use crate::init::ptp_read_op;
use crate::init::scaling_write_at;
use crate::measure::Channel;
use crate::measure::ReadMachine;
use crate::measure::status_poll_op;
use crate::registers::I2C_SLAVE__DEVICE_ADDRESS;
use crate::registers::IDENTIFICATION__MODEL_ID;
use crate::registers::INTERRUPT_CLEAR_AMBIENT;
use crate::registers::INTERRUPT_CLEAR_ERROR;
use crate::registers::INTERRUPT_CLEAR_RANGE;
use crate::registers::SYSTEM__INTERRUPT_CLEAR;

verus! {

/// Where the device stands in its lifecycle.
#[derive(Debug, Clone, Copy, PartialEq, Eq)]
pub enum DriverMode {
    /// The shutdown line holds the device off.
    PoweredOff,
    /// The shutdown line was released; the boot flag has not been seen.
    AwaitingBoot,
    /// The boot flag was seen; initialization has not completed.
    Booted,
    /// Initialization completed; measurements may be taken.
    Ready,
}

/// The write that re-addresses the device on the bus.
pub open spec fn address_write_op(new_address: u8) -> BusOp {
    BusOp::Write8(I2C_SLAVE__DEVICE_ADDRESS, new_address)
}

/// A bus address the device accepts for re-addressing.
pub open spec fn address_valid(new_address: u8) -> bool {
    0x08 <= new_address <= 0x77
}

/// The driver handle for one sensor.
pub struct VL6180X {
    /// The driver-wide settings; `ptp_offset` is filled in by
    /// [`VL6180X::finish_init`].
    pub config: Config,
    /// The lifecycle state the driver believes the device is in.
    pub mode: DriverMode,
}

impl VL6180X {
    /// Wrap a configuration into a handle for a powered-off device.
    pub fn new(config: Config) -> (d: VL6180X)
        ensures
            d.config == config,
            d.mode is PoweredOff,
    {
        VL6180X { config, mode: DriverMode::PoweredOff }
    }

    /// Record the outcome of driving the shutdown line low. On success
    /// the device is powered off; a pin failure is surfaced and changes
    /// nothing.
    pub fn power_off<PE>(&mut self, pin_set_low: Result<(), PE>) -> (r: Result<(), Error<PE>>)
        ensures
            final(self).config == old(self).config,
            pin_set_low is Ok ==> r is Ok && final(self).mode is PoweredOff,
            pin_set_low matches Err(e) ==> r == Err::<(), Error<PE>>(Error::GpioPinError(e))
                && final(self).mode == old(self).mode,
    {
        match pin_set_low {
            Ok(()) => {
                self.mode = DriverMode::PoweredOff;
                Ok(())
            },
            Err(e) => Err(Error::GpioPinError(e)),
        }
    }

    /// Record the outcome of driving the shutdown line high. On success
    /// the device is booting and the caller must poll the boot flag; a
    /// pin failure is surfaced and changes nothing.
    pub fn power_on<PE>(&mut self, pin_set_high: Result<(), PE>) -> (r: Result<(), Error<PE>>)
        requires
            old(self).mode is PoweredOff,
        ensures
            final(self).config == old(self).config,
            pin_set_high is Ok ==> r is Ok && final(self).mode is AwaitingBoot,
            pin_set_high matches Err(e) ==> r == Err::<(), Error<PE>>(Error::GpioPinError(e))
                && final(self).mode == old(self).mode,
    {
        match pin_set_high {
            Ok(()) => {
                self.mode = DriverMode::AwaitingBoot;
                Ok(())
            },
            Err(e) => Err(Error::GpioPinError(e)),
        }
    }

    /// Record one boot-flag poll. The device counts as booted exactly
    /// when the poll returned the fresh-out-of-reset sentinel; a read
    /// failure or any other byte keeps the driver waiting, so the boot
    /// wait has no bound of its own.
    pub fn boot_observe<E>(&mut self, outcome: Result<u8, E>) -> (booted: bool)
        requires
            old(self).mode is AwaitingBoot,
        ensures
            final(self).config == old(self).config,
            booted <==> outcome == Ok::<u8, E>(crate::registers::FRESH_OUT_OF_RESET_SENTINEL),
            booted ==> final(self).mode is Booted,
            !booted ==> final(self).mode is AwaitingBoot,
    {
        let seen = crate::init::boot_sentinel_seen(&outcome);
        if seen {
            self.mode = DriverMode::Booted;
        }
        seen
    }

    /// Begin initialization of a booted device: hands out the sequencer
    /// and the first bus operation (the part-to-part-offset capture).
    pub fn start_init<E>(&self) -> (r: (InitSequencer<E>, BusOp))
        requires
            self.mode is Booted,
            init_applicable(self.config),
        ensures
            r.0.inv(),
            !r.0.is_finished(),
            r.0.is_awaiting_ptp(),
            r.0.cfg() == self.config,
            r.0.ops() == seq![ptp_read_op()],
            r.1 == ptp_read_op(),
    {
        InitSequencer::new(self.config)
    }

    /// Record the outcome of a finished initialization. On success the
    /// captured part-to-part offset is stored and the device is ready;
    /// on failure nothing is recorded — the device state is indeterminate
    /// and the caller must power-cycle and retry.
    pub fn finish_init<E>(&mut self, seq: InitSequencer<E>) -> (r: Result<(), Error<E>>)
        requires
            old(self).mode is Booted,
            seq.inv(),
            seq.is_finished(),
            seq.cfg() == old(self).config,
        ensures
            Some(r) == seq.outcome_spec(),
            r is Ok ==> final(self).mode is Ready && final(self).config == (Config {
                ptp_offset: seq.captured_ptp_offset(),
                ..old(self).config
            }),
            r is Err ==> final(self).mode == old(self).mode && final(self).config == old(
                self,
            ).config,
    {
        let captured = seq.captured_ptp_offset_value();
        let result = seq.take_result();
        match result {
            Ok(()) => {
                proof {
                    // A matched unit payload pins the whole value.
                    assert(result->Ok_0 == ());
                    assert(result == Ok::<(), Error<E>>(()));
                }
                self.config.ptp_offset = captured;
                self.mode = DriverMode::Ready;
                Ok(())
            },
            Err(e) => Err(e),
        }
    }

    /// Begin one range read on a ready device; blocking reads poll up to
    /// `poll_max_loop` times.
    pub fn start_range_read<E>(&self, blocking: bool) -> (r: (ReadMachine<E>, BusOp))
        requires
            self.mode is Ready,
            config_wf(self.config),
        ensures
            r.0.inv(),
            r.0.is_polling(),
            !r.0.is_finished(),
            r.0.channel() is Range,
            r.0.blocking() == blocking,
            r.0.budget() == self.config.poll_max_loop,
            r.0.scaling() == self.config.range_scaling,
            r.0.ops() == seq![status_poll_op()],
            r.1 == status_poll_op(),
    {
        ReadMachine::new(
            Channel::Range,
            blocking,
            self.config.poll_max_loop,
            self.config.range_scaling,
        )
    }

    /// Begin one ambient read on a ready device; blocking reads poll up
    /// to `poll_max_loop` times. The machine yields the raw ambient
    /// count; convert it with
    /// [`VL6180X::convert_raw_ambient_to_millilux`].
    pub fn start_ambient_read<E>(&self, blocking: bool) -> (r: (ReadMachine<E>, BusOp))
        requires
            self.mode is Ready,
            config_wf(self.config),
        ensures
            r.0.inv(),
            r.0.is_polling(),
            !r.0.is_finished(),
            r.0.channel() is Ambient,
            r.0.blocking() == blocking,
            r.0.budget() == self.config.poll_max_loop,
            r.0.ops() == seq![status_poll_op()],
            r.1 == status_poll_op(),
    {
        ReadMachine::new(Channel::Ambient, blocking, self.config.poll_max_loop, 1)
    }

    /// Begin a range-scaling recomputation on a ready device, which must
    /// run after every change of the range result scaler.
    pub fn start_range_rescale<E>(&self) -> (r: (ScalingSequencer<E>, BusOp))
        requires
            self.mode is Ready,
            1 <= self.config.range_scaling <= 3,
        ensures
            r.0.inv(),
            !r.0.is_finished(),
            r.0.scaling() == self.config.range_scaling,
            r.0.ptp_offset() == self.config.ptp_offset,
            r.0.ops() == seq![
                scaling_write_at(self.config.range_scaling, self.config.ptp_offset, 0),
            ],
            r.1 == scaling_write_at(self.config.range_scaling, self.config.ptp_offset, 0),
    {
        ScalingSequencer::new(self.config.range_scaling, self.config.ptp_offset)
    }

    /// Validate a new bus address and name the write that applies it.
    /// Addresses outside 0x08..=0x77 are rejected with `InvalidAddress`
    /// and nothing is issued.
    pub fn begin_change_i2c_address<E>(&self, new_address: u8) -> (r: Result<BusOp, Error<E>>)
        ensures
            address_valid(new_address) ==> r == Ok::<BusOp, Error<E>>(
                address_write_op(new_address),
            ),
            !address_valid(new_address) ==> r == Err::<BusOp, Error<E>>(
                Error::InvalidAddress(new_address),
            ),
    {
        if new_address < 0x08 || new_address > 0x77 {
            return Err(Error::InvalidAddress(new_address));
        }
        Ok(BusOp::Write8(I2C_SLAVE__DEVICE_ADDRESS, new_address))
    }

    /// Record the outcome of the re-addressing write. The stored address
    /// changes exactly when the address was valid and the write
    /// succeeded; a rejected address or a failed write leaves it
    /// untouched.
    pub fn finish_change_i2c_address<E>(
        &mut self,
        new_address: u8,
        write_result: Result<(), E>,
    ) -> (r: Result<(), Error<E>>)
        ensures
            final(self).mode == old(self).mode,
            !address_valid(new_address) ==> r == Err::<(), Error<E>>(
                Error::InvalidAddress(new_address),
            ) && final(self).config == old(self).config,
            address_valid(new_address) && write_result is Ok ==> r is Ok && final(self).config == (
            Config { address: new_address, ..old(self).config }),
            address_valid(new_address) && write_result is Err ==> r == Err::<(), Error<E>>(
                Error::BusError(write_result->Err_0),
            ) && final(self).config == old(self).config,
    {
        if new_address < 0x08 || new_address > 0x77 {
            return Err(Error::InvalidAddress(new_address));
        }
        match write_result {
            Ok(()) => {
                self.config.address = new_address;
                Ok(())
            },
            Err(e) => Err(Error::BusError(e)),
        }
    }

    /// Convert a raw range count to millimeters with the stored range
    /// result scaler.
    pub fn convert_raw_range_to_mm(&self, raw_range: u8) -> (mm: u16)
        ensures
            mm == range_mm_spec(self.config.range_scaling, raw_range),
    {
        range_to_mm(self.config.range_scaling, raw_range)
    }

    /// Convert a raw ambient count to thousandths of a lux with the
    /// stored gain level and integration period.
    pub fn convert_raw_ambient_to_millilux(&self, raw_ambient: u16) -> (millilux: u64)
        requires
            self.config.ambient_analogue_gain_level <= 7,
            self.config.ambient_integration_period >= 1,
        ensures
            millilux == millilux_spec(
                self.config.ambient_analogue_gain_level,
                self.config.ambient_integration_period,
                raw_ambient,
            ),
    {
        ambient_to_millilux(
            self.config.ambient_analogue_gain_level,
            self.config.ambient_integration_period,
            raw_ambient,
        )
    }

}

/// The read of the interrupt status register, for callers that test event
/// classes themselves with the predicates in [`crate::status`].
pub fn read_interrupt_status_op() -> (op: BusOp)
    ensures
        op == status_poll_op(),
{
    BusOp::Read8(crate::registers::RESULT__INTERRUPT_STATUS_GPIO)
}

/// The write that clears the range channel's interrupt latch.
pub fn clear_range_interrupt_op() -> (op: BusOp)
    ensures
        op == crate::measure::clear_interrupt_op(Channel::Range),
{
    BusOp::Write8(SYSTEM__INTERRUPT_CLEAR, INTERRUPT_CLEAR_RANGE)
}

/// The write that clears the ambient channel's interrupt latch.
pub fn clear_ambient_interrupt_op() -> (op: BusOp)
    ensures
        op == crate::measure::clear_interrupt_op(Channel::Ambient),
{
    BusOp::Write8(SYSTEM__INTERRUPT_CLEAR, INTERRUPT_CLEAR_AMBIENT)
}

/// The write that clears the error interrupt latch.
pub fn clear_error_interrupt_op() -> (op: BusOp)
    ensures
        op == BusOp::Write8(SYSTEM__INTERRUPT_CLEAR, INTERRUPT_CLEAR_ERROR),
{
    BusOp::Write8(SYSTEM__INTERRUPT_CLEAR, INTERRUPT_CLEAR_ERROR)
}

/// The write that clears all three interrupt latches at once.
pub fn clear_all_interrupts_op() -> (op: BusOp)
    ensures
        op == BusOp::Write8(
            SYSTEM__INTERRUPT_CLEAR,
            INTERRUPT_CLEAR_RANGE | INTERRUPT_CLEAR_AMBIENT | INTERRUPT_CLEAR_ERROR,
        ),
{
    BusOp::Write8(
        SYSTEM__INTERRUPT_CLEAR,
        INTERRUPT_CLEAR_RANGE | INTERRUPT_CLEAR_AMBIENT | INTERRUPT_CLEAR_ERROR,
    )
}

/// The read of the device's model identification register.
pub fn read_model_id_op() -> (op: BusOp)
    ensures
        op == BusOp::Read8(IDENTIFICATION__MODEL_ID),
{
    BusOp::Read8(IDENTIFICATION__MODEL_ID)
}

} // verus!
