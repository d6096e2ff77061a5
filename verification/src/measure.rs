//! The measurement acquisition engine.
//!
//! Both channels follow the same two-phase discipline: first "is a result
//! ready" against RESULT__INTERRUPT_STATUS_GPIO, then "fetch and decode".
//! [`ReadMachine`] walks that discipline one bus transaction at a time:
//! [`ReadMachine::step`] consumes the outcome of the previously issued
//! operation and either names the next one or finishes with the
//! measurement result. The machine keeps a ghost trace of every operation
//! it has issued, and its contracts pin the trace down exactly:
//!
//! - a blocking read that times out has issued exactly `budget` status
//!   polls and nothing else;
//! - a non-blocking read that finds nothing ready has issued exactly one
//!   status poll and nothing else;
//! - whenever a result status was fetched — whether it decoded to a value,
//!   a mapped device error, or an unknown code — the channel's interrupt
//!   clear was issued exactly once, immediately after the status read.

use vstd::prelude::*;
use crate::bus::BusEvent;
use crate::bus::BusOp;
use crate::bus::event_answers;
use crate::error::Error;
use crate::registers::INTERRUPT_CLEAR_AMBIENT;
use crate::registers::INTERRUPT_CLEAR_RANGE;
use crate::registers::RESULT__ALS_STATUS;
use crate::registers::RESULT__ALS_VAL;
use crate::registers::RESULT__INTERRUPT_STATUS_GPIO;
use crate::registers::RESULT__RANGE_STATUS;
use crate::registers::RESULT__RANGE_VAL;
use crate::registers::SYSTEM__INTERRUPT_CLEAR;
use crate::status::AmbientStatusErrorCode;
use crate::status::RangeStatusErrorCode;
use crate::status::ambient_status_decode;
use crate::status::ambient_status_from_raw;
use crate::status::has_no_ambient_event;
use crate::status::has_no_range_event;
use crate::status::no_ambient_event;
use crate::status::no_range_event;
use crate::status::range_status_decode;
use crate::status::range_status_from_raw;
use crate::convert::range_mm_spec;

verus! {

/// One of the two measurement pipelines.
#[derive(Debug, Clone, Copy, PartialEq, Eq)]
pub enum Channel {
    Range,
    Ambient,
}

/// The status poll every read begins with.
pub open spec fn status_poll_op() -> BusOp {
    BusOp::Read8(RESULT__INTERRUPT_STATUS_GPIO)
}

/// The read of a channel's result-status register.
pub open spec fn status_read_op(channel: Channel) -> BusOp {
    match channel {
        Channel::Range => BusOp::Read8(RESULT__RANGE_STATUS),
        Channel::Ambient => BusOp::Read8(RESULT__ALS_STATUS),
    }
}

/// The write that clears a channel's interrupt latch.
pub open spec fn clear_interrupt_op(channel: Channel) -> BusOp {
    match channel {
        Channel::Range => BusOp::Write8(SYSTEM__INTERRUPT_CLEAR, INTERRUPT_CLEAR_RANGE),
        Channel::Ambient => BusOp::Write8(SYSTEM__INTERRUPT_CLEAR, INTERRUPT_CLEAR_AMBIENT),
    }
}

/// The read of a channel's raw result register.
pub open spec fn value_read_op(channel: Channel) -> BusOp {
    match channel {
        Channel::Range => BusOp::Read8(RESULT__RANGE_VAL),
        Channel::Ambient => BusOp::Read16(RESULT__ALS_VAL),
    }
}

/// `n` status polls in a row.
pub open spec fn polls(n: int) -> Seq<BusOp> {
    Seq::new(n as nat, |i: int| status_poll_op())
}

/// Whether an interrupt status byte reports no event on this channel.
pub open spec fn channel_quiet(channel: Channel, status: u8) -> bool {
    match channel {
        Channel::Range => no_range_event(status),
        Channel::Ambient => no_ambient_event(status),
    }
}

/// Whether a result-status byte maps to no documented code on this channel.
pub open spec fn channel_status_unmapped(channel: Channel, status: u8) -> bool {
    match channel {
        Channel::Range => range_status_decode(status) is None,
        Channel::Ambient => ambient_status_decode(status) is None,
    }
}

/// Whether a result-status byte decodes to this channel's nominal status.
pub open spec fn channel_status_no_error(channel: Channel, status: u8) -> bool {
    match channel {
        Channel::Range => range_status_decode(status) == Some(RangeStatusErrorCode::NoError),
        Channel::Ambient => ambient_status_decode(status) == Some(AmbientStatusErrorCode::NoError),
    }
}

/// How often an operation occurs in a trace.
pub open spec fn op_count(ops: Seq<BusOp>, op: BusOp) -> int
    decreases ops.len(),
{
    if ops.len() == 0 {
        0
    } else {
        op_count(ops.drop_last(), op) + if ops.last() == op {
            1int
        } else {
            0int
        }
    }
}

/// An outcome after which the caller may simply try again: no result status
/// was fetched and no interrupt was cleared.
pub open spec fn retry_outcome<E>(r: Result<u16, Error<E>>) -> bool {
    ||| r == Err::<u16, Error<E>>(Error::Timeout)
    ||| r == Err::<u16, Error<E>>(Error::ResultNotReady)
}

/// An outcome for which the result status register was read and decoded —
/// successfully or not. Every such outcome cleared the interrupt.
pub open spec fn decoded_outcome<E>(r: Result<u16, Error<E>>) -> bool {
    ||| r is Ok
    ||| r matches Err(Error::UnknownRegisterCode(_))
    ||| r matches Err(Error::RangeStatusError(_))
    ||| r matches Err(Error::AmbientStatusError(_))
}

enum ReadPhase {
    /// The last issued operation was a status poll.
    Poll,
    /// The last issued operation was the result-status read.
    AwaitStatus,
    /// The last issued operation was the interrupt clear.
    AwaitClear,
    /// The last issued operation was the raw-value read.
    AwaitValue,
    /// The machine holds its outcome; no operation is outstanding.
    Finished,
}

/// One measurement read, blocking or non-blocking, on one channel.
///
/// Created by [`ReadMachine::new`] (or from a configured device handle),
/// which also names the first bus operation. Feed each operation's outcome
/// to [`ReadMachine::step`] until it reports completion, then collect the
/// result with [`ReadMachine::take_result`].
pub struct ReadMachine<E> {
    channel: Channel,
    blocking: bool,
    budget: u16,
    count: u16,
    scaling: u8,
    status_byte: u8,
    phase: ReadPhase,
    outcome: Option<Result<u16, Error<E>>>,
    ops: Ghost<Seq<BusOp>>,
}

impl<E> ReadMachine<E> {
    /// The channel this machine reads.
    pub closed spec fn channel(&self) -> Channel {
        self.channel
    }

    /// Whether this machine busy-polls with a budget rather than failing on
    /// the first quiet status.
    pub closed spec fn blocking(&self) -> bool {
        self.blocking
    }

    /// The poll budget of a blocking machine.
    pub closed spec fn budget(&self) -> u16 {
        self.budget
    }

    /// The range scaling factor applied to a raw range count.
    pub closed spec fn scaling(&self) -> u8 {
        self.scaling
    }

    /// Every bus operation this machine has issued, oldest first.
    pub closed spec fn ops(&self) -> Seq<BusOp> {
        self.ops@
    }

    /// The result-status byte the machine has decoded, once it fetched one.
    pub closed spec fn observed_status(&self) -> u8 {
        self.status_byte
    }

    /// Whether the machine still awaits the answer to a status poll.
    pub closed spec fn is_polling(&self) -> bool {
        self.phase is Poll
    }

    /// Whether the machine awaits the answer to the result-status read.
    pub closed spec fn is_awaiting_status(&self) -> bool {
        self.phase is AwaitStatus
    }

    /// Whether the machine awaits the answer to the interrupt clear.
    pub closed spec fn is_awaiting_clear(&self) -> bool {
        self.phase is AwaitClear
    }

    /// Whether the machine awaits the answer to the raw-value read.
    pub closed spec fn is_awaiting_value(&self) -> bool {
        self.phase is AwaitValue
    }

    /// Whether the machine holds its outcome.
    pub closed spec fn is_finished(&self) -> bool {
        self.phase is Finished
    }

    /// The outcome, once the machine is finished.
    pub closed spec fn outcome_spec(&self) -> Option<Result<u16, Error<E>>> {
        self.outcome
    }

    /// The operation whose outcome [`ReadMachine::step`] expects next.
    pub open spec fn pending_op(&self) -> BusOp {
        self.ops().last()
    }

    /// How many status polls have been issued so far.
    pub open spec fn polls_issued(&self) -> int {
        if self.is_polling() {
            self.ops().len() as int
        } else {
            0
        }
    }

    /// Trace bound while polling: a blocking machine with a budget never
    /// issues more polls than the budget allows.
    spec fn poll_bound(&self, n: int) -> bool {
        if self.blocking {
            self.budget == 0 || n <= self.budget
        } else {
            n == 1
        }
    }

    /// The machine's invariant, established by [`ReadMachine::new`] and
    /// preserved by [`ReadMachine::step`]: the ghost trace always has
    /// exactly the shape the phase dictates.
    pub closed spec fn inv(&self) -> bool {
        let n = self.ops@.len() as int;
        &&& (self.channel is Range ==> 1 <= self.scaling <= 3)
        &&& match self.phase {
            ReadPhase::Poll => {
                &&& self.outcome is None
                &&& n >= 1
                &&& self.ops@ == polls(n)
                &&& if self.blocking {
                    self.budget == 0 || (self.count < self.budget && n == self.count + 1)
                } else {
                    n == 1
                }
            },
            ReadPhase::AwaitStatus => {
                &&& self.outcome is None
                &&& n >= 2
                &&& self.ops@ == polls(n - 1) + seq![status_read_op(self.channel)]
                &&& self.poll_bound(n - 1)
            },
            ReadPhase::AwaitClear => {
                &&& self.outcome is None
                &&& n >= 3
                &&& self.ops@ == polls(n - 2) + seq![
                    status_read_op(self.channel),
                    clear_interrupt_op(self.channel),
                ]
                &&& self.poll_bound(n - 2)
            },
            ReadPhase::AwaitValue => {
                &&& self.outcome is None
                &&& n >= 4
                &&& self.ops@ == polls(n - 3) + seq![
                    status_read_op(self.channel),
                    clear_interrupt_op(self.channel),
                    value_read_op(self.channel),
                ]
                &&& self.poll_bound(n - 3)
                &&& channel_status_no_error(self.channel, self.status_byte)
            },
            ReadPhase::Finished => {
                &&& self.outcome matches Some(r) && self.finished_shape(r, n)
            },
        }
    }

    /// What the trace looks like for each possible outcome.
    spec fn finished_shape(&self, r: Result<u16, Error<E>>, n: int) -> bool {
        match r {
            Ok(v) => {
                &&& n >= 4
                &&& self.ops@ == polls(n - 3) + seq![
                    status_read_op(self.channel),
                    clear_interrupt_op(self.channel),
                    value_read_op(self.channel),
                ]
                &&& self.poll_bound(n - 3)
                &&& channel_status_no_error(self.channel, self.status_byte)
                &&& (self.channel is Range ==> exists|raw: u8|
                    v == range_mm_spec(self.scaling, raw))
            },
            Err(Error::Timeout) => {
                &&& self.blocking
                &&& self.budget >= 1
                &&& n == self.budget
                &&& self.ops@ == polls(n)
            },
            Err(Error::ResultNotReady) => {
                &&& !self.blocking
                &&& n == 1
                &&& self.ops@ == polls(1)
            },
            Err(Error::UnknownRegisterCode(s)) => {
                &&& s == self.status_byte
                &&& channel_status_unmapped(self.channel, s)
                &&& n >= 3
                &&& self.ops@ == polls(n - 2) + seq![
                    status_read_op(self.channel),
                    clear_interrupt_op(self.channel),
                ]
                &&& self.poll_bound(n - 2)
            },
            Err(Error::RangeStatusError(e)) => {
                &&& self.channel is Range
                &&& range_status_decode(self.status_byte) == Some(e)
                &&& e != RangeStatusErrorCode::NoError
                &&& n >= 3
                &&& self.ops@ == polls(n - 2) + seq![
                    status_read_op(self.channel),
                    clear_interrupt_op(self.channel),
                ]
                &&& self.poll_bound(n - 2)
            },
            Err(Error::AmbientStatusError(e)) => {
                &&& self.channel is Ambient
                &&& ambient_status_decode(self.status_byte) == Some(e)
                &&& e != AmbientStatusErrorCode::NoError
                &&& n >= 3
                &&& self.ops@ == polls(n - 2) + seq![
                    status_read_op(self.channel),
                    clear_interrupt_op(self.channel),
                ]
                &&& self.poll_bound(n - 2)
            },
            Err(Error::BusError(_)) => {
                ||| (n >= 1 && self.ops@ == polls(n) && self.poll_bound(n))
                ||| (n >= 2 && self.ops@ == polls(n - 1) + seq![status_read_op(self.channel)]
                    && self.poll_bound(n - 1))
                ||| (n >= 3 && self.ops@ == polls(n - 2) + seq![
                    status_read_op(self.channel),
                    clear_interrupt_op(self.channel),
                ] && self.poll_bound(n - 2))
                ||| (n >= 4 && self.ops@ == polls(n - 3) + seq![
                    status_read_op(self.channel),
                    clear_interrupt_op(self.channel),
                    value_read_op(self.channel),
                ] && self.poll_bound(n - 3))
            },
            _ => false,
        }
    }

    /// Start a read: the machine issues its first status poll, which the
    /// caller must perform before stepping.
    pub fn new(channel: Channel, blocking: bool, budget: u16, scaling: u8) -> (r: (
        ReadMachine<E>,
        BusOp,
    ))
        requires
            channel is Range ==> 1 <= scaling <= 3,
        ensures
            r.0.inv(),
            r.0.is_polling(),
            !r.0.is_finished(),
            r.0.channel() == channel,
            r.0.blocking() == blocking,
            r.0.budget() == budget,
            r.0.scaling() == scaling,
            r.0.ops() == seq![status_poll_op()],
            r.1 == status_poll_op(),
    {
        let m = ReadMachine {
            channel,
            blocking,
            budget,
            count: 0,
            scaling,
            status_byte: 0,
            phase: ReadPhase::Poll,
            outcome: None,
            ops: Ghost(Seq::empty().push(status_poll_op())),
        };
        proof {
            assert(m.ops@ =~= polls(1));
        }
        (m, BusOp::Read8(RESULT__INTERRUPT_STATUS_GPIO))
    }

    /// Feed the outcome of the previously issued operation. `Some(op)`
    /// names the next operation to perform; `None` means the machine is
    /// finished and [`ReadMachine::take_result`] yields the result.
    ///
    /// The contract walks the acquisition discipline exactly; in
    /// particular, once finished:
    ///
    /// - a timeout leaves a trace of exactly `budget` status polls, so a
    ///   blocking read that never sees the ready bit fails after exactly
    ///   `budget` iterations;
    /// - not-ready leaves a trace of exactly one status poll;
    /// - every decoded outcome's trace ends with the status read followed
    ///   immediately by the interrupt clear (and the value read, on
    ///   success), so the interrupt is cleared exactly once per fetch and
    ///   never without a fetch.
    pub fn step(&mut self, event: BusEvent<E>) -> (r: Option<BusOp>)
        requires
            old(self).inv(),
            !old(self).is_finished(),
            event_answers(old(self).pending_op(), event),
        ensures
            final(self).inv(),
            final(self).channel() == old(self).channel(),
            final(self).blocking() == old(self).blocking(),
            final(self).budget() == old(self).budget(),
            final(self).scaling() == old(self).scaling(),
            match r {
                Some(op) => final(self).ops() == old(self).ops().push(op) && !final(self).is_finished(),
                None => final(self).ops() == old(self).ops() && final(self).is_finished()
                    && final(self).outcome_spec() is Some,
            },
            event is Failed ==> r is None && final(self).outcome_spec() == Some(
                Err::<u16, Error<E>>(Error::BusError(event->Failed_0)),
            ),
            old(self).is_polling() && event is Byte ==> {
                let s = event->Byte_0;
                &&& !channel_quiet(old(self).channel(), s) ==> r == Some(
                    status_read_op(old(self).channel()),
                ) && final(self).is_awaiting_status()
                &&& channel_quiet(old(self).channel(), s) && !old(self).blocking() ==> r is None
                    && final(self).outcome_spec() == Some(
                    Err::<u16, Error<E>>(Error::ResultNotReady),
                )
                &&& channel_quiet(old(self).channel(), s) && old(self).blocking() && old(self).polls_issued() == old(self).budget() ==> r is None && final(self).outcome_spec()
                    == Some(Err::<u16, Error<E>>(Error::Timeout))
                &&& channel_quiet(old(self).channel(), s) && old(self).blocking() && old(self).polls_issued() != old(self).budget() ==> r == Some(status_poll_op()) && final(self).is_polling()
            },
            old(self).is_awaiting_status() && event is Byte ==> r == Some(
                clear_interrupt_op(old(self).channel()),
            ) && final(self).is_awaiting_clear() && final(self).observed_status() == event->Byte_0,
            old(self).is_awaiting_clear() && event is WriteDone ==> {
                let ch = old(self).channel();
                let s = old(self).observed_status();
                &&& channel_status_unmapped(ch, s) ==> r is None && final(self).outcome_spec()
                    == Some(Err::<u16, Error<E>>(Error::UnknownRegisterCode(s)))
                &&& channel_status_no_error(ch, s) ==> r == Some(value_read_op(ch)) && final(self).is_awaiting_value()
                &&& ch is Range && range_status_decode(s) is Some && !channel_status_no_error(
                    ch,
                    s,
                ) ==> r is None && final(self).outcome_spec() == Some(
                    Err::<u16, Error<E>>(Error::RangeStatusError(range_status_decode(s)->Some_0)),
                )
                &&& ch is Ambient && ambient_status_decode(s) is Some && !channel_status_no_error(
                    ch,
                    s,
                ) ==> r is None && final(self).outcome_spec() == Some(
                    Err::<u16, Error<E>>(Error::AmbientStatusError(
                        ambient_status_decode(s)->Some_0,
                    )),
                )
            },
            old(self).is_awaiting_value() && event is Byte ==> r is None && final(self).outcome_spec() == Some(
                Ok::<u16, Error<E>>((old(self).scaling() * event->Byte_0) as u16),
            ),
            old(self).is_awaiting_value() && event is Word ==> r is None && final(self).outcome_spec() == Some(Ok::<u16, Error<E>>(event->Word_0)),
    {
        match event {
            BusEvent::Failed(e) => {
                self.phase = ReadPhase::Finished;
                self.outcome = Some(Err(Error::BusError(e)));
                None
            },
            BusEvent::Byte(b) => {
                match self.phase {
                    ReadPhase::Poll => {
                        let quiet = match self.channel {
                            Channel::Range => has_no_range_event(b),
                            Channel::Ambient => has_no_ambient_event(b),
                        };
                        if !quiet {
                            self.phase = ReadPhase::AwaitStatus;
                            let op = match self.channel {
                                Channel::Range => BusOp::Read8(RESULT__RANGE_STATUS),
                                Channel::Ambient => BusOp::Read8(RESULT__ALS_STATUS),
                            };
                            proof {
                                self.ops = Ghost(self.ops@.push(status_read_op(self.channel)));
                                assert(self.ops@ =~= polls(self.ops@.len() - 1) + seq![
                                    status_read_op(self.channel),
                                ]);
                            }
                            Some(op)
                        } else if !self.blocking {
                            self.phase = ReadPhase::Finished;
                            self.outcome = Some(Err(Error::ResultNotReady));
                            None
                        } else {
                            if self.count < u16::MAX {
                                self.count = self.count + 1;
                            }
                            if self.count == self.budget {
                                self.phase = ReadPhase::Finished;
                                self.outcome = Some(Err(Error::Timeout));
                                None
                            } else {
                                proof {
                                    self.ops = Ghost(self.ops@.push(status_poll_op()));
                                    assert(self.ops@ =~= polls(self.ops@.len() as int));
                                }
                                Some(BusOp::Read8(RESULT__INTERRUPT_STATUS_GPIO))
                            }
                        }
                    },
                    ReadPhase::AwaitStatus => {
                        self.status_byte = b;
                        self.phase = ReadPhase::AwaitClear;
                        let op = match self.channel {
                            Channel::Range => BusOp::Write8(
                                SYSTEM__INTERRUPT_CLEAR,
                                INTERRUPT_CLEAR_RANGE,
                            ),
                            Channel::Ambient => BusOp::Write8(
                                SYSTEM__INTERRUPT_CLEAR,
                                INTERRUPT_CLEAR_AMBIENT,
                            ),
                        };
                        proof {
                            self.ops = Ghost(self.ops@.push(clear_interrupt_op(self.channel)));
                            assert(self.ops@ =~= polls(self.ops@.len() - 2) + seq![
                                status_read_op(self.channel),
                                clear_interrupt_op(self.channel),
                            ]);
                        }
                        Some(op)
                    },
                    ReadPhase::AwaitValue => {
                        // Only the range channel reads an 8-bit value.
                        let mm = crate::convert::range_to_mm(self.scaling, b);
                        self.phase = ReadPhase::Finished;
                        self.outcome = Some(Ok(mm));
                        proof {
                            assert(mm == range_mm_spec(self.scaling, b));
                        }
                        None
                    },
                    _ => vstd::pervasive::unreached(),
                }
            },
            BusEvent::Word(w) => {
                match self.phase {
                    ReadPhase::AwaitValue => {
                        self.phase = ReadPhase::Finished;
                        self.outcome = Some(Ok(w));
                        None
                    },
                    _ => vstd::pervasive::unreached(),
                }
            },
            BusEvent::WriteDone => {
                match self.phase {
                    ReadPhase::AwaitClear => {
                        match self.channel {
                            Channel::Range => {
                                match range_status_from_raw(self.status_byte) {
                                    None => {
                                        self.phase = ReadPhase::Finished;
                                        self.outcome = Some(
                                            Err(Error::UnknownRegisterCode(self.status_byte)),
                                        );
                                        None
                                    },
                                    Some(RangeStatusErrorCode::NoError) => {
                                        self.phase = ReadPhase::AwaitValue;
                                        proof {
                                            self.ops = Ghost(self.ops@.push(value_read_op(self.channel)));
                                            assert(self.ops@ =~= polls(self.ops@.len() - 3) + seq![
                                                status_read_op(self.channel),
                                                clear_interrupt_op(self.channel),
                                                value_read_op(self.channel),
                                            ]);
                                        }
                                        Some(BusOp::Read8(RESULT__RANGE_VAL))
                                    },
                                    Some(e) => {
                                        self.phase = ReadPhase::Finished;
                                        self.outcome = Some(Err(Error::RangeStatusError(e)));
                                        None
                                    },
                                }
                            },
                            Channel::Ambient => {
                                match ambient_status_from_raw(self.status_byte) {
                                    None => {
                                        self.phase = ReadPhase::Finished;
                                        self.outcome = Some(
                                            Err(Error::UnknownRegisterCode(self.status_byte)),
                                        );
                                        None
                                    },
                                    Some(AmbientStatusErrorCode::NoError) => {
                                        self.phase = ReadPhase::AwaitValue;
                                        proof {
                                            self.ops = Ghost(self.ops@.push(value_read_op(self.channel)));
                                            assert(self.ops@ =~= polls(self.ops@.len() - 3) + seq![
                                                status_read_op(self.channel),
                                                clear_interrupt_op(self.channel),
                                                value_read_op(self.channel),
                                            ]);
                                        }
                                        Some(BusOp::Read16(RESULT__ALS_VAL))
                                    },
                                    Some(e) => {
                                        self.phase = ReadPhase::Finished;
                                        self.outcome = Some(Err(Error::AmbientStatusError(e)));
                                        None
                                    },
                                }
                            },
                        }
                    },
                    _ => vstd::pervasive::unreached(),
                }
            },
        }
    }

    /// Collect the result of a finished machine.
    pub fn take_result(self) -> (r: Result<u16, Error<E>>)
        requires
            self.is_finished(),
            self.inv(),
        ensures
            Some(r) == self.outcome_spec(),
    {
        match self.outcome {
            Some(r) => r,
            None => vstd::pervasive::unreached(),
        }
    }
}

/// Counting an operation distributes over trace concatenation.
proof fn lemma_op_count_concat(a: Seq<BusOp>, b: Seq<BusOp>, op: BusOp)
    ensures
        op_count(a + b, op) == op_count(a, op) + op_count(b, op),
    decreases b.len(),
{
    if b.len() == 0 {
        assert(a + b =~= a);
    } else {
        assert((a + b).drop_last() =~= a + b.drop_last());
        assert((a + b).last() == b.last());
        lemma_op_count_concat(a, b.drop_last(), op);
    }
}

/// A run of status polls contains no other operation.
proof fn lemma_op_count_polls(n: int, op: BusOp)
    requires
        n >= 0,
        op != status_poll_op(),
    ensures
        op_count(polls(n), op) == 0,
    decreases n,
{
    if n == 0 {
        assert(polls(0).len() == 0);
    } else {
        assert(polls(n).drop_last() =~= polls(n - 1));
        assert(polls(n).last() == status_poll_op());
        lemma_op_count_polls(n - 1, op);
    }
}

/// Fetch-and-decode clears the channel interrupt exactly once per call —
/// whether the status decoded to a value, a mapped device error, or an
/// unknown code — and a read that ended not-ready or timed out cleared
/// nothing. (A read that died on a bus failure cleared at most once.)
pub proof fn lemma_clear_discipline<E>(m: &ReadMachine<E>)
    requires
        m.inv(),
        m.is_finished(),
    ensures
        decoded_outcome(m.outcome_spec()->Some_0) ==> op_count(
            m.ops(),
            clear_interrupt_op(m.channel()),
        ) == 1,
        retry_outcome(m.outcome_spec()->Some_0) ==> op_count(
            m.ops(),
            clear_interrupt_op(m.channel()),
        ) == 0,
{
    let cl = clear_interrupt_op(m.channel());
    let sr = status_read_op(m.channel());
    let vr = value_read_op(m.channel());
    let n = m.ops().len() as int;
    let r = m.outcome_spec()->Some_0;
    assert(seq![sr].drop_last() =~= Seq::<BusOp>::empty());
    assert(seq![sr, cl].drop_last() =~= seq![sr]);
    assert(seq![sr, cl, vr].drop_last() =~= seq![sr, cl]);
    assert(op_count(Seq::<BusOp>::empty(), cl) == 0);
    assert(op_count(seq![sr], cl) == 0);
    assert(op_count(seq![sr, cl], cl) == 1);
    assert(op_count(seq![sr, cl, vr], cl) == 1);
    if decoded_outcome(r) {
        if r is Ok {
            lemma_op_count_concat(polls(n - 3), seq![sr, cl, vr], cl);
            lemma_op_count_polls(n - 3, cl);
        } else {
            lemma_op_count_concat(polls(n - 2), seq![sr, cl], cl);
            lemma_op_count_polls(n - 2, cl);
        }
    }
    if retry_outcome(r) {
        lemma_op_count_polls(n, cl);
    }
}

/// A blocking read that never sees its ready bit fails with a timeout after
/// issuing exactly `budget` status polls — not one more, not one fewer, and
/// nothing else.
pub proof fn lemma_timeout_trace<E>(m: &ReadMachine<E>)
    requires
        m.inv(),
        m.is_finished(),
        m.outcome_spec() == Some(Err::<u16, Error<E>>(Error::Timeout)),
    ensures
        m.blocking(),
        m.budget() >= 1,
        m.ops() == polls(m.budget() as int),
{
}

/// A non-blocking read that finds no result issues exactly one status poll
/// and nothing else.
pub proof fn lemma_not_ready_trace<E>(m: &ReadMachine<E>)
    requires
        m.inv(),
        m.is_finished(),
        m.outcome_spec() == Some(Err::<u16, Error<E>>(Error::ResultNotReady)),
    ensures
        !m.blocking(),
        m.ops() == polls(1),
{
}

} // verus!
