//! The initialization sequencer and the range-scaling recomputation.
//!
//! Bring-up follows the vendor application note: once the device reports
//! itself fresh out of reset, the driver captures the factory part-to-part
//! range offset, writes the mandated sequence of private registers, clears
//! the fresh-out-of-reset flag, applies every configuration field to its
//! register, and finally applies range scaling, which ends in a
//! read-modify-write of the range-check-enables register. [`InitSequencer`]
//! drives that whole sequence one bus transaction at a time and its
//! contract pins the issued operations down byte for byte.
//! [`ScalingSequencer`] replays the scaling tail alone; it must run after
//! every later change of the range result scaler.

use vstd::prelude::*;
use crate::bus::BusEvent;
use crate::bus::BusOp;
use crate::bus::event_answers;
use crate::config::Config;
use crate::config::ambient_mode_bits;
use crate::config::ambient_mode_value;
use crate::config::config_is_wf;
use crate::config::config_wf;
use crate::config::range_mode_bits;
use crate::config::range_mode_value;
use crate::error::Error;
use crate::registers::FIRMWARE__RESULT_SCALER;
use crate::registers::GPIO1_POLARITY_ACTIVE_HIGH;
use crate::registers::GPIO1_SELECT_INTERRUPT_OUTPUT;
use crate::registers::GPIO1_SELECT_OFF;
use crate::registers::INTERLEAVED_MODE__ENABLE;
use crate::registers::RANGE_SCALER;
use crate::registers::READOUT__AVERAGING_SAMPLE_PERIOD;
use crate::registers::SYSALS__ANALOGUE_GAIN;
use crate::registers::SYSALS__INTEGRATION_PERIOD;
use crate::registers::SYSALS__INTERMEASUREMENT_PERIOD;
use crate::registers::SYSALS__THRESH_HIGH;
use crate::registers::SYSALS__THRESH_LOW;
use crate::registers::SYSRANGE__CROSSTALK_VALID_HEIGHT;
use crate::registers::SYSRANGE__INTERMEASUREMENT_PERIOD;
use crate::registers::SYSRANGE__MAX_CONVERGENCE_TIME;
use crate::registers::SYSRANGE__PART_TO_PART_RANGE_OFFSET;
use crate::registers::SYSRANGE__RANGE_CHECK_ENABLES;
use crate::registers::SYSRANGE__THRESH_HIGH;
use crate::registers::SYSRANGE__THRESH_LOW;
use crate::registers::SYSRANGE__VHV_RECALIBRATE;
use crate::registers::SYSRANGE__VHV_REPEAT_RATE;
use crate::registers::SYSTEM__FRESH_OUT_OF_RESET;
use crate::registers::SYSTEM__INTERRUPT_CONFIG_GPIO;
use crate::registers::SYSTEM__MODE_GPIO1;
use crate::registers::FRESH_OUT_OF_RESET_SENTINEL;
use crate::registers::gain_code;
use crate::registers::gain_code_spec;
use crate::registers::range_scaler_code;
use crate::registers::range_scaler_code_spec;

verus! {

/// Default value of SYSRANGE__CROSSTALK_VALID_HEIGHT, rescaled with the
/// range scaler.
pub const DEFAULT_CROSSTALK_VALID_HEIGHT: u8 = 20;

/// How many register writes initialization performs between the offset
/// capture and the range-check-enables read.
pub const INIT_WRITE_COUNT: usize = 50;

/// The read that polls SYSTEM__FRESH_OUT_OF_RESET during boot.
pub open spec fn boot_status_read_op() -> BusOp {
    BusOp::Read8(SYSTEM__FRESH_OUT_OF_RESET)
}

/// The read that captures the factory part-to-part range offset.
pub open spec fn ptp_read_op() -> BusOp {
    BusOp::Read8(SYSRANGE__PART_TO_PART_RANGE_OFFSET)
}

/// The read that starts the range-check-enables read-modify-write.
pub open spec fn rce_read_op() -> BusOp {
    BusOp::Read8(SYSRANGE__RANGE_CHECK_ENABLES)
}

/// The value written back to range-check-enables: the early convergence
/// estimate bit is set only at 1x scaling, every other bit is kept.
pub open spec fn rce_write_val(scaling: u8, rce: u8) -> u8 {
    (rce & 0xFE) | (if scaling == 1 {
        1u8
    } else {
        0u8
    })
}

/// The write that ends the range-check-enables read-modify-write.
pub open spec fn rce_write_op(scaling: u8, rce: u8) -> BusOp {
    BusOp::Write8(SYSRANGE__RANGE_CHECK_ENABLES, rce_write_val(scaling, rce))
}

/// The three writes of the range-scaling recomputation: the scaler code,
/// the rescaled part-to-part offset, and the rescaled crosstalk valid
/// height.
pub open spec fn scaling_write_at(scaling: u8, ptp_offset: u8, i: int) -> BusOp {
    if i == 0 {
        BusOp::Write16(RANGE_SCALER, range_scaler_code_spec(scaling))
    } else if i == 1 {
        BusOp::Write8(SYSRANGE__PART_TO_PART_RANGE_OFFSET, (ptp_offset / scaling) as u8)
    } else {
        BusOp::Write8(
            SYSRANGE__CROSSTALK_VALID_HEIGHT,
            (DEFAULT_CROSSTALK_VALID_HEIGHT / scaling) as u8,
        )
    }
}

/// The full trace of a range-scaling recomputation that read `rce` from
/// the range-check-enables register.
pub open spec fn scaling_trace(scaling: u8, ptp_offset: u8, rce: u8) -> Seq<BusOp> {
    seq![
        scaling_write_at(scaling, ptp_offset, 0),
        scaling_write_at(scaling, ptp_offset, 1),
        scaling_write_at(scaling, ptp_offset, 2),
        rce_read_op(),
        rce_write_op(scaling, rce),
    ]
}

/// The combined SYSTEM__INTERRUPT_CONFIG_GPIO value of a configuration.
pub open spec fn interrupt_config_bits(c: Config) -> u8 {
    range_mode_bits(c.range_interrupt_mode) | ambient_mode_bits(c.ambient_interrupt_mode)
}

/// The SYSTEM__MODE_GPIO1 value: GPIO1 is an active-high interrupt output
/// exactly when some interrupt is enabled, otherwise off.
pub open spec fn gpio1_mode_bits(c: Config) -> u8 {
    if interrupt_config_bits(c) != 0 {
        GPIO1_POLARITY_ACTIVE_HIGH | GPIO1_SELECT_INTERRUPT_OUTPUT
    } else {
        GPIO1_POLARITY_ACTIVE_HIGH | GPIO1_SELECT_OFF
    }
}

/// A configuration that initialization can apply: well-formed, and with an
/// ambient inter-measurement period whose register transform
/// (`period / 10 - 1`) fits the 8-bit register. The ambient period setter
/// accepts up to 2560 ms, but 2560 does not survive the transform, so
/// initialization holds the line at 2550 ms.
pub open spec fn init_applicable(c: Config) -> bool {
    &&& config_wf(c)
    &&& c.ambient_inter_measurement_period <= 2550
}

/// Runtime test of [`init_applicable`], for callers that assembled a
/// configuration without tracking its validity.
pub fn config_init_applicable(c: &Config) -> (applicable: bool)
    ensures
        applicable == init_applicable(*c),
{
    config_is_wf(c) && c.ambient_inter_measurement_period <= 2550
}

/// The `i`-th register write of initialization: the vendor-private pokes,
/// the fresh-out-of-reset clear, one write per configuration field, and
/// the first three scaling writes.
pub open spec fn init_write_at(c: Config, ptp_offset: u8, i: int) -> BusOp {
    if i == 0 {
        BusOp::Write8(0x207, 0x01)
    } else if i == 1 {
        BusOp::Write8(0x208, 0x01)
    } else if i == 2 {
        BusOp::Write8(0x096, 0x00)
    } else if i == 3 {
        BusOp::Write8(0x097, 0xFD)
    } else if i == 4 {
        BusOp::Write8(0x0E3, 0x01)
    } else if i == 5 {
        BusOp::Write8(0x0E4, 0x03)
    } else if i == 6 {
        BusOp::Write8(0x0E5, 0x02)
    } else if i == 7 {
        BusOp::Write8(0x0E6, 0x01)
    } else if i == 8 {
        BusOp::Write8(0x0E7, 0x03)
    } else if i == 9 {
        BusOp::Write8(0x0F5, 0x02)
    } else if i == 10 {
        BusOp::Write8(0x0D9, 0x05)
    } else if i == 11 {
        BusOp::Write8(0x0DB, 0xCE)
    } else if i == 12 {
        BusOp::Write8(0x0DC, 0x03)
    } else if i == 13 {
        BusOp::Write8(0x0DD, 0xF8)
    } else if i == 14 {
        BusOp::Write8(0x09F, 0x00)
    } else if i == 15 {
        BusOp::Write8(0x0A3, 0x3C)
    } else if i == 16 {
        BusOp::Write8(0x0B7, 0x00)
    } else if i == 17 {
        BusOp::Write8(0x0BB, 0x3C)
    } else if i == 18 {
        BusOp::Write8(0x0B2, 0x09)
    } else if i == 19 {
        BusOp::Write8(0x0CA, 0x09)
    } else if i == 20 {
        BusOp::Write8(0x198, 0x01)
    } else if i == 21 {
        BusOp::Write8(0x1B0, 0x17)
    } else if i == 22 {
        BusOp::Write8(0x1AD, 0x00)
    } else if i == 23 {
        BusOp::Write8(0x0FF, 0x05)
    } else if i == 24 {
        BusOp::Write8(0x100, 0x05)
    } else if i == 25 {
        BusOp::Write8(0x199, 0x05)
    } else if i == 26 {
        BusOp::Write8(0x1A6, 0x1B)
    } else if i == 27 {
        BusOp::Write8(0x1AC, 0x3E)
    } else if i == 28 {
        BusOp::Write8(0x1A7, 0x1F)
    } else if i == 29 {
        BusOp::Write8(0x030, 0x00)
    } else if i == 30 {
        BusOp::Write8(SYSTEM__FRESH_OUT_OF_RESET, 0x00)
    } else if i == 31 {
        BusOp::Write8(READOUT__AVERAGING_SAMPLE_PERIOD, c.readout_averaging_period_multiplier)
    } else if i == 32 {
        BusOp::Write8(SYSALS__ANALOGUE_GAIN, gain_code_spec(c.ambient_analogue_gain_level))
    } else if i == 33 {
        BusOp::Write8(FIRMWARE__RESULT_SCALER, c.ambient_scaling)
    } else if i == 34 {
        BusOp::Write8(SYSRANGE__VHV_REPEAT_RATE, c.range_vhv_recalibration_rate)
    } else if i == 35 {
        BusOp::Write16(SYSALS__INTEGRATION_PERIOD, (c.ambient_integration_period - 1) as u16)
    } else if i == 36 {
        BusOp::Write8(
            SYSALS__INTERMEASUREMENT_PERIOD,
            (c.ambient_inter_measurement_period / 10 - 1) as u8,
        )
    } else if i == 37 {
        BusOp::Write8(SYSRANGE__VHV_RECALIBRATE, 0x01)
    } else if i == 38 {
        BusOp::Write8(
            SYSRANGE__INTERMEASUREMENT_PERIOD,
            (c.range_inter_measurement_period / 10 - 1) as u8,
        )
    } else if i == 39 {
        BusOp::Write8(SYSTEM__INTERRUPT_CONFIG_GPIO, interrupt_config_bits(c))
    } else if i == 40 {
        BusOp::Write8(SYSTEM__MODE_GPIO1, gpio1_mode_bits(c))
    } else if i == 41 {
        BusOp::Write8(SYSRANGE__THRESH_HIGH, c.range_high_interrupt_threshold)
    } else if i == 42 {
        BusOp::Write8(SYSRANGE__THRESH_LOW, c.range_low_interrupt_threshold)
    } else if i == 43 {
        BusOp::Write16(SYSALS__THRESH_HIGH, c.ambient_high_interrupt_threshold)
    } else if i == 44 {
        BusOp::Write16(SYSALS__THRESH_LOW, c.ambient_low_interrupt_threshold)
    } else if i == 45 {
        BusOp::Write8(SYSRANGE__MAX_CONVERGENCE_TIME, c.range_max_convergence_time)
    } else if i == 46 {
        BusOp::Write8(INTERLEAVED_MODE__ENABLE, 0x00)
    } else {
        scaling_write_at(c.range_scaling, ptp_offset, i - 47)
    }
}

/// All [`INIT_WRITE_COUNT`] initialization writes, in order.
pub open spec fn init_writes(c: Config, ptp_offset: u8) -> Seq<BusOp> {
    Seq::new(INIT_WRITE_COUNT as nat, |i: int| init_write_at(c, ptp_offset, i))
}

/// The complete trace of a successful initialization that captured
/// `ptp_offset` and read `rce` from the range-check-enables register.
pub open spec fn init_trace(c: Config, ptp_offset: u8, rce: u8) -> Seq<BusOp> {
    seq![ptp_read_op()] + init_writes(c, ptp_offset) + seq![
        rce_read_op(),
        rce_write_op(c.range_scaling, rce),
    ]
}

/// Compute the `i`-th initialization write.
fn init_write(c: &Config, ptp_offset: u8, i: usize) -> (op: BusOp)
    requires
        init_applicable(*c),
        i < INIT_WRITE_COUNT,
    ensures
        op == init_write_at(*c, ptp_offset, i as int),
{
    match i {
        0 => BusOp::Write8(0x207, 0x01),
        1 => BusOp::Write8(0x208, 0x01),
        2 => BusOp::Write8(0x096, 0x00),
        3 => BusOp::Write8(0x097, 0xFD),
        4 => BusOp::Write8(0x0E3, 0x01),
        5 => BusOp::Write8(0x0E4, 0x03),
        6 => BusOp::Write8(0x0E5, 0x02),
        7 => BusOp::Write8(0x0E6, 0x01),
        8 => BusOp::Write8(0x0E7, 0x03),
        9 => BusOp::Write8(0x0F5, 0x02),
        10 => BusOp::Write8(0x0D9, 0x05),
        11 => BusOp::Write8(0x0DB, 0xCE),
        12 => BusOp::Write8(0x0DC, 0x03),
        13 => BusOp::Write8(0x0DD, 0xF8),
        14 => BusOp::Write8(0x09F, 0x00),
        15 => BusOp::Write8(0x0A3, 0x3C),
        16 => BusOp::Write8(0x0B7, 0x00),
        17 => BusOp::Write8(0x0BB, 0x3C),
        18 => BusOp::Write8(0x0B2, 0x09),
        19 => BusOp::Write8(0x0CA, 0x09),
        20 => BusOp::Write8(0x198, 0x01),
        21 => BusOp::Write8(0x1B0, 0x17),
        22 => BusOp::Write8(0x1AD, 0x00),
        23 => BusOp::Write8(0x0FF, 0x05),
        24 => BusOp::Write8(0x100, 0x05),
        25 => BusOp::Write8(0x199, 0x05),
        26 => BusOp::Write8(0x1A6, 0x1B),
        27 => BusOp::Write8(0x1AC, 0x3E),
        28 => BusOp::Write8(0x1A7, 0x1F),
        29 => BusOp::Write8(0x030, 0x00),
        30 => BusOp::Write8(SYSTEM__FRESH_OUT_OF_RESET, 0x00),
        31 => BusOp::Write8(
            READOUT__AVERAGING_SAMPLE_PERIOD,
            c.readout_averaging_period_multiplier,
        ),
        32 => BusOp::Write8(SYSALS__ANALOGUE_GAIN, gain_code(c.ambient_analogue_gain_level)),
        33 => BusOp::Write8(FIRMWARE__RESULT_SCALER, c.ambient_scaling),
        34 => BusOp::Write8(SYSRANGE__VHV_REPEAT_RATE, c.range_vhv_recalibration_rate),
        35 => BusOp::Write16(SYSALS__INTEGRATION_PERIOD, c.ambient_integration_period - 1),
        36 => BusOp::Write8(
            SYSALS__INTERMEASUREMENT_PERIOD,
            (c.ambient_inter_measurement_period / 10 - 1) as u8,
        ),
        37 => BusOp::Write8(SYSRANGE__VHV_RECALIBRATE, 0x01),
        38 => BusOp::Write8(
            SYSRANGE__INTERMEASUREMENT_PERIOD,
            (c.range_inter_measurement_period / 10 - 1) as u8,
        ),
        39 => BusOp::Write8(
            SYSTEM__INTERRUPT_CONFIG_GPIO,
            range_mode_value(c.range_interrupt_mode) | ambient_mode_value(c.ambient_interrupt_mode),
        ),
        40 => {
            let bits = range_mode_value(c.range_interrupt_mode) | ambient_mode_value(
                c.ambient_interrupt_mode,
            );
            if bits != 0 {
                BusOp::Write8(
                    SYSTEM__MODE_GPIO1,
                    GPIO1_POLARITY_ACTIVE_HIGH | GPIO1_SELECT_INTERRUPT_OUTPUT,
                )
            } else {
                BusOp::Write8(SYSTEM__MODE_GPIO1, GPIO1_POLARITY_ACTIVE_HIGH | GPIO1_SELECT_OFF)
            }
        },
        41 => BusOp::Write8(SYSRANGE__THRESH_HIGH, c.range_high_interrupt_threshold),
        42 => BusOp::Write8(SYSRANGE__THRESH_LOW, c.range_low_interrupt_threshold),
        43 => BusOp::Write16(SYSALS__THRESH_HIGH, c.ambient_high_interrupt_threshold),
        44 => BusOp::Write16(SYSALS__THRESH_LOW, c.ambient_low_interrupt_threshold),
        45 => BusOp::Write8(SYSRANGE__MAX_CONVERGENCE_TIME, c.range_max_convergence_time),
        46 => BusOp::Write8(INTERLEAVED_MODE__ENABLE, 0x00),
        47 => BusOp::Write16(RANGE_SCALER, range_scaler_code(c.range_scaling)),
        48 => BusOp::Write8(SYSRANGE__PART_TO_PART_RANGE_OFFSET, ptp_offset / c.range_scaling),
        _ => BusOp::Write8(
            SYSRANGE__CROSSTALK_VALID_HEIGHT,
            DEFAULT_CROSSTALK_VALID_HEIGHT / c.range_scaling,
        ),
    }
}

enum InitPhase {
    /// The part-to-part-offset read is outstanding.
    AwaitPtp,
    /// The write at `write_idx` is outstanding.
    AwaitWrite,
    /// The range-check-enables read is outstanding.
    AwaitRce,
    /// The final range-check-enables write is outstanding.
    AwaitFinal,
    /// The sequencer holds its outcome.
    Finished,
}

/// One device bring-up, from the offset capture to the final
/// range-check-enables write.
///
/// Created by [`InitSequencer::new`], which also names the first bus
/// operation. Feed each operation's outcome to [`InitSequencer::step`]
/// until it reports completion; on success the issued operations are
/// exactly [`init_trace`] of the configuration, the captured offset and
/// the range-check-enables byte, and [`InitSequencer::captured_ptp_offset`]
/// holds the offset the caller must store in its configuration. A bus
/// failure aborts the sequence at once with no attempt at rollback.
pub struct InitSequencer<E> {
    cfg: Config,
    ptp_offset: u8,
    rce: u8,
    write_idx: usize,
    phase: InitPhase,
    outcome: Option<Result<(), Error<E>>>,
    ops: Ghost<Seq<BusOp>>,
}

impl<E> InitSequencer<E> {
    /// The configuration this sequencer applies.
    pub closed spec fn cfg(&self) -> Config {
        self.cfg
    }

    /// The factory part-to-part range offset captured by the first read.
    pub closed spec fn captured_ptp_offset(&self) -> u8 {
        self.ptp_offset
    }

    /// The byte read from the range-check-enables register.
    pub closed spec fn observed_rce(&self) -> u8 {
        self.rce
    }

    /// Every bus operation this sequencer has issued, oldest first.
    pub closed spec fn ops(&self) -> Seq<BusOp> {
        self.ops@
    }

    /// Whether the sequencer awaits the answer to the offset capture.
    pub closed spec fn is_awaiting_ptp(&self) -> bool {
        self.phase is AwaitPtp
    }

    /// Whether the sequencer awaits the answer to the range-check-enables
    /// read.
    pub closed spec fn is_awaiting_rce(&self) -> bool {
        self.phase is AwaitRce
    }

    /// Whether the sequencer holds its outcome.
    pub closed spec fn is_finished(&self) -> bool {
        self.phase is Finished
    }

    /// The outcome, once the sequencer is finished.
    pub closed spec fn outcome_spec(&self) -> Option<Result<(), Error<E>>> {
        self.outcome
    }

    /// The operation whose outcome [`InitSequencer::step`] expects next.
    pub open spec fn pending_op(&self) -> BusOp {
        self.ops().last()
    }

    /// The sequencer's invariant: the ghost trace always has exactly the
    /// shape its progress dictates.
    pub closed spec fn inv(&self) -> bool {
        &&& init_applicable(self.cfg)
        &&& match self.phase {
            InitPhase::AwaitPtp => {
                &&& self.outcome is None
                &&& self.ops@ == seq![ptp_read_op()]
            },
            InitPhase::AwaitWrite => {
                &&& self.outcome is None
                &&& self.write_idx < INIT_WRITE_COUNT
                &&& self.ops@ == seq![ptp_read_op()] + init_writes(self.cfg, self.ptp_offset).take(
                    self.write_idx + 1,
                )
            },
            InitPhase::AwaitRce => {
                &&& self.outcome is None
                &&& self.ops@ == seq![ptp_read_op()] + init_writes(self.cfg, self.ptp_offset)
                    + seq![rce_read_op()]
            },
            InitPhase::AwaitFinal => {
                &&& self.outcome is None
                &&& self.ops@ == init_trace(self.cfg, self.ptp_offset, self.rce)
            },
            InitPhase::Finished => {
                &&& self.outcome matches Some(r)
                &&& (r is Ok ==> self.ops@ == init_trace(self.cfg, self.ptp_offset, self.rce))
                &&& (r matches Err(e) ==> e is BusError)
            },
        }
    }

    /// Start a bring-up: the sequencer issues the part-to-part-offset
    /// read, which the caller must perform before stepping.
    pub fn new(cfg: Config) -> (r: (InitSequencer<E>, BusOp))
        requires
            init_applicable(cfg),
        ensures
            r.0.inv(),
            !r.0.is_finished(),
            r.0.is_awaiting_ptp(),
            r.0.cfg() == cfg,
            r.0.ops() == seq![ptp_read_op()],
            r.1 == ptp_read_op(),
    {
        let s = InitSequencer {
            cfg,
            ptp_offset: 0,
            rce: 0,
            write_idx: 0,
            phase: InitPhase::AwaitPtp,
            outcome: None,
            ops: Ghost(Seq::empty().push(ptp_read_op())),
        };
        proof {
            assert(s.ops@ =~= seq![ptp_read_op()]);
        }
        (s, BusOp::Read8(SYSRANGE__PART_TO_PART_RANGE_OFFSET))
    }

    /// Feed the outcome of the previously issued operation. `Some(op)`
    /// names the next operation to perform; `None` means the sequencer is
    /// finished: on success the full trace was issued in order, and any
    /// bus failure surfaces as `BusError` with the sequence abandoned
    /// where it stood.
    pub fn step(&mut self, event: BusEvent<E>) -> (r: Option<BusOp>)
        requires
            old(self).inv(),
            !old(self).is_finished(),
            event_answers(old(self).pending_op(), event),
        ensures
            final(self).inv(),
            final(self).cfg() == old(self).cfg(),
            match r {
                Some(op) => final(self).ops() == old(self).ops().push(op) && !final(self).is_finished(),
                None => final(self).ops() == old(self).ops() && final(self).is_finished() && final(self).outcome_spec() is Some,
            },
            event is Failed ==> r is None && final(self).outcome_spec() == Some(
                Err::<(), Error<E>>(Error::BusError(event->Failed_0)),
            ),
            !(event is Failed) && r is None ==> final(self).outcome_spec() == Some(
                Ok::<(), Error<E>>(()),
            ),
            old(self).is_awaiting_ptp() && event is Byte ==> final(self).captured_ptp_offset()
                == event->Byte_0,
            !old(self).is_awaiting_ptp() ==> final(self).captured_ptp_offset() == old(self).captured_ptp_offset(),
            old(self).is_awaiting_rce() && event is Byte ==> final(self).observed_rce()
                == event->Byte_0,
            !old(self).is_awaiting_rce() ==> final(self).observed_rce() == old(self).observed_rce(),
            final(self).is_finished() && final(self).outcome_spec() == Some(
                Ok::<(), Error<E>>(()),
            ) ==> final(self).ops() == init_trace(
                final(self).cfg(),
                final(self).captured_ptp_offset(),
                final(self).observed_rce(),
            ),
    {
        match event {
            BusEvent::Failed(e) => {
                self.phase = InitPhase::Finished;
                self.outcome = Some(Err(Error::BusError(e)));
                None
            },
            BusEvent::Byte(b) => {
                match self.phase {
                    InitPhase::AwaitPtp => {
                        self.ptp_offset = b;
                        self.write_idx = 0;
                        self.phase = InitPhase::AwaitWrite;
                        let op = init_write(&self.cfg, self.ptp_offset, 0);
                        proof {
                            self.ops = Ghost(self.ops@.push(op));
                            assert(self.ops@ =~= seq![ptp_read_op()] + init_writes(
                                self.cfg,
                                self.ptp_offset,
                            ).take(1));
                        }
                        Some(op)
                    },
                    InitPhase::AwaitRce => {
                        self.rce = b;
                        self.phase = InitPhase::AwaitFinal;
                        let bit: u8 = if self.cfg.range_scaling == 1 {
                            1
                        } else {
                            0
                        };
                        let op = BusOp::Write8(SYSRANGE__RANGE_CHECK_ENABLES, (b & 0xFE) | bit);
                        proof {
                            self.ops = Ghost(self.ops@.push(op));
                            assert(self.ops@ =~= init_trace(self.cfg, self.ptp_offset, self.rce));
                        }
                        Some(op)
                    },
                    _ => vstd::pervasive::unreached(),
                }
            },
            BusEvent::WriteDone => {
                match self.phase {
                    InitPhase::AwaitWrite => {
                        if self.write_idx + 1 < INIT_WRITE_COUNT {
                            self.write_idx = self.write_idx + 1;
                            let op = init_write(&self.cfg, self.ptp_offset, self.write_idx);
                            proof {
                                let ws = init_writes(self.cfg, self.ptp_offset);
                                assert(ws.take(self.write_idx + 1) =~= ws.take(
                                    self.write_idx as int,
                                ).push(ws[self.write_idx as int]));
                                self.ops = Ghost(self.ops@.push(op));
                                assert(self.ops@ =~= seq![ptp_read_op()] + ws.take(
                                    self.write_idx + 1,
                                ));
                            }
                            Some(op)
                        } else {
                            self.phase = InitPhase::AwaitRce;
                            proof {
                                let ws = init_writes(self.cfg, self.ptp_offset);
                                assert(ws.take(INIT_WRITE_COUNT as int) =~= ws);
                                self.ops = Ghost(self.ops@.push(rce_read_op()));
                                assert(self.ops@ =~= seq![ptp_read_op()] + ws + seq![
                                    rce_read_op(),
                                ]);
                            }
                            Some(BusOp::Read8(SYSRANGE__RANGE_CHECK_ENABLES))
                        }
                    },
                    InitPhase::AwaitFinal => {
                        self.phase = InitPhase::Finished;
                        self.outcome = Some(Ok(()));
                        None
                    },
                    _ => vstd::pervasive::unreached(),
                }
            },
            BusEvent::Word(_) => vstd::pervasive::unreached(),
        }
    }

    /// The captured part-to-part offset, for the caller to store once the
    /// sequencer finished successfully.
    pub fn captured_ptp_offset_value(&self) -> (ptp: u8)
        ensures
            ptp == self.captured_ptp_offset(),
    {
        self.ptp_offset
    }

    /// Collect the result of a finished sequencer.
    pub fn take_result(self) -> (r: Result<(), Error<E>>)
        requires
            self.is_finished(),
            self.inv(),
        ensures
            Some(r) == self.outcome_spec(),
    {
        match self.outcome {
            Some(r) => r,
            None => vstd::pervasive::unreached(),
        }
    }
}

/// One standalone range-scaling recomputation (the tail of
/// initialization), to be run after every change of the range result
/// scaler.
pub struct ScalingSequencer<E> {
    scaling: u8,
    ptp_offset: u8,
    rce: u8,
    write_idx: usize,
    phase: InitPhase,
    outcome: Option<Result<(), Error<E>>>,
    ops: Ghost<Seq<BusOp>>,
}

impl<E> ScalingSequencer<E> {
    /// The range scaling factor being applied.
    pub closed spec fn scaling(&self) -> u8 {
        self.scaling
    }

    /// The part-to-part range offset being rescaled.
    pub closed spec fn ptp_offset(&self) -> u8 {
        self.ptp_offset
    }

    /// The byte read from the range-check-enables register.
    pub closed spec fn observed_rce(&self) -> u8 {
        self.rce
    }

    /// Every bus operation this sequencer has issued, oldest first.
    pub closed spec fn ops(&self) -> Seq<BusOp> {
        self.ops@
    }

    /// Whether the sequencer awaits the answer to the range-check-enables
    /// read.
    pub closed spec fn is_awaiting_rce(&self) -> bool {
        self.phase is AwaitRce
    }

    /// Whether the sequencer holds its outcome.
    pub closed spec fn is_finished(&self) -> bool {
        self.phase is Finished
    }

    /// The outcome, once the sequencer is finished.
    pub closed spec fn outcome_spec(&self) -> Option<Result<(), Error<E>>> {
        self.outcome
    }

    /// The operation whose outcome [`ScalingSequencer::step`] expects
    /// next.
    pub open spec fn pending_op(&self) -> BusOp {
        self.ops().last()
    }

    /// The sequencer's invariant.
    pub closed spec fn inv(&self) -> bool {
        &&& 1 <= self.scaling <= 3
        &&& match self.phase {
            InitPhase::AwaitPtp => false,
            InitPhase::AwaitWrite => {
                &&& self.outcome is None
                &&& self.write_idx < 3
                &&& self.ops@ == scaling_trace(self.scaling, self.ptp_offset, self.rce).take(
                    self.write_idx + 1,
                )
            },
            InitPhase::AwaitRce => {
                &&& self.outcome is None
                &&& self.ops@ == scaling_trace(self.scaling, self.ptp_offset, self.rce).take(4)
            },
            InitPhase::AwaitFinal => {
                &&& self.outcome is None
                &&& self.ops@ == scaling_trace(self.scaling, self.ptp_offset, self.rce)
            },
            InitPhase::Finished => {
                &&& self.outcome matches Some(r)
                &&& (r is Ok ==> self.ops@ == scaling_trace(
                    self.scaling,
                    self.ptp_offset,
                    self.rce,
                ))
                &&& (r matches Err(e) ==> e is BusError)
            },
        }
    }

    /// Start a recomputation: the sequencer issues the scaler-code write,
    /// which the caller must perform before stepping.
    pub fn new(scaling: u8, ptp_offset: u8) -> (r: (ScalingSequencer<E>, BusOp))
        requires
            1 <= scaling <= 3,
        ensures
            r.0.inv(),
            !r.0.is_finished(),
            r.0.scaling() == scaling,
            r.0.ptp_offset() == ptp_offset,
            r.0.ops() == seq![scaling_write_at(scaling, ptp_offset, 0)],
            r.1 == scaling_write_at(scaling, ptp_offset, 0),
    {
        let op = BusOp::Write16(RANGE_SCALER, range_scaler_code(scaling));
        let s = ScalingSequencer {
            scaling,
            ptp_offset,
            rce: 0,
            write_idx: 0,
            phase: InitPhase::AwaitWrite,
            outcome: None,
            ops: Ghost(Seq::empty().push(scaling_write_at(scaling, ptp_offset, 0))),
        };
        proof {
            assert(s.ops@ =~= scaling_trace(scaling, ptp_offset, s.rce).take(1));
            assert(s.ops@ =~= seq![scaling_write_at(scaling, ptp_offset, 0)]);
        }
        (s, op)
    }

    /// Feed the outcome of the previously issued operation; `None` means
    /// the sequencer is finished. On success the issued operations are
    /// exactly [`scaling_trace`]; a bus failure surfaces as `BusError`.
    pub fn step(&mut self, event: BusEvent<E>) -> (r: Option<BusOp>)
        requires
            old(self).inv(),
            !old(self).is_finished(),
            event_answers(old(self).pending_op(), event),
        ensures
            final(self).inv(),
            final(self).scaling() == old(self).scaling(),
            final(self).ptp_offset() == old(self).ptp_offset(),
            match r {
                Some(op) => final(self).ops() == old(self).ops().push(op) && !final(self).is_finished(),
                None => final(self).ops() == old(self).ops() && final(self).is_finished() && final(self).outcome_spec() is Some,
            },
            event is Failed ==> r is None && final(self).outcome_spec() == Some(
                Err::<(), Error<E>>(Error::BusError(event->Failed_0)),
            ),
            !(event is Failed) && r is None ==> final(self).outcome_spec() == Some(
                Ok::<(), Error<E>>(()),
            ),
            old(self).is_awaiting_rce() && event is Byte ==> final(self).observed_rce()
                == event->Byte_0,
            !old(self).is_awaiting_rce() ==> final(self).observed_rce() == old(self).observed_rce(),
            final(self).is_finished() && final(self).outcome_spec() == Some(
                Ok::<(), Error<E>>(()),
            ) ==> final(self).ops() == scaling_trace(
                final(self).scaling(),
                final(self).ptp_offset(),
                final(self).observed_rce(),
            ),
    {
        match event {
            BusEvent::Failed(e) => {
                self.phase = InitPhase::Finished;
                self.outcome = Some(Err(Error::BusError(e)));
                None
            },
            BusEvent::WriteDone => {
                match self.phase {
                    InitPhase::AwaitWrite => {
                        if self.write_idx == 0 {
                            self.write_idx = 1;
                            let op = BusOp::Write8(
                                SYSRANGE__PART_TO_PART_RANGE_OFFSET,
                                self.ptp_offset / self.scaling,
                            );
                            proof {
                                self.ops = Ghost(self.ops@.push(op));
                                assert(self.ops@ =~= scaling_trace(
                                    self.scaling,
                                    self.ptp_offset,
                                    self.rce,
                                ).take(2));
                            }
                            Some(op)
                        } else if self.write_idx == 1 {
                            self.write_idx = 2;
                            let op = BusOp::Write8(
                                SYSRANGE__CROSSTALK_VALID_HEIGHT,
                                DEFAULT_CROSSTALK_VALID_HEIGHT / self.scaling,
                            );
                            proof {
                                self.ops = Ghost(self.ops@.push(op));
                                assert(self.ops@ =~= scaling_trace(
                                    self.scaling,
                                    self.ptp_offset,
                                    self.rce,
                                ).take(3));
                            }
                            Some(op)
                        } else {
                            self.phase = InitPhase::AwaitRce;
                            proof {
                                self.ops = Ghost(self.ops@.push(rce_read_op()));
                                assert(self.ops@ =~= scaling_trace(
                                    self.scaling,
                                    self.ptp_offset,
                                    self.rce,
                                ).take(4));
                            }
                            Some(BusOp::Read8(SYSRANGE__RANGE_CHECK_ENABLES))
                        }
                    },
                    InitPhase::AwaitFinal => {
                        self.phase = InitPhase::Finished;
                        self.outcome = Some(Ok(()));
                        None
                    },
                    _ => vstd::pervasive::unreached(),
                }
            },
            BusEvent::Byte(b) => {
                match self.phase {
                    InitPhase::AwaitRce => {
                        self.rce = b;
                        self.phase = InitPhase::AwaitFinal;
                        let bit: u8 = if self.scaling == 1 {
                            1
                        } else {
                            0
                        };
                        let op = BusOp::Write8(SYSRANGE__RANGE_CHECK_ENABLES, (b & 0xFE) | bit);
                        proof {
                            self.ops = Ghost(self.ops@.push(op));
                            assert(self.ops@ =~= scaling_trace(
                                self.scaling,
                                self.ptp_offset,
                                self.rce,
                            ));
                        }
                        Some(op)
                    },
                    _ => vstd::pervasive::unreached(),
                }
            },
            BusEvent::Word(_) => vstd::pervasive::unreached(),
        }
    }

    /// Collect the result of a finished sequencer.
    pub fn take_result(self) -> (r: Result<(), Error<E>>)
        requires
            self.is_finished(),
            self.inv(),
        ensures
            Some(r) == self.outcome_spec(),
    {
        match self.outcome {
            Some(r) => r,
            None => vstd::pervasive::unreached(),
        }
    }
}

/// The read that polls the boot flag while waiting for the device.
pub fn boot_poll_op() -> (op: BusOp)
    ensures
        op == boot_status_read_op(),
{
    BusOp::Read8(SYSTEM__FRESH_OUT_OF_RESET)
}

/// Whether one boot poll outcome shows the device fresh out of reset.
/// A bus failure during the boot wait is ignored: the caller polls again.
pub fn boot_sentinel_seen<E>(outcome: &Result<u8, E>) -> (seen: bool)
    ensures
        seen <==> *outcome == Ok::<u8, E>(FRESH_OUT_OF_RESET_SENTINEL),
{
    match outcome {
        Ok(v) => *v == FRESH_OUT_OF_RESET_SENTINEL,
        Err(_) => false,
    }
}

} // verus!
