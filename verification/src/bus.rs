//! The vocabulary the driver core shares with its bus embedding.
//!
//! The core never performs a bus transaction itself. Each driver operation
//! names the next transaction as a [`BusOp`]; the embedding performs it and
//! answers with a [`BusEvent`] carrying the outcome. `E` is the embedding's
//! own bus error type, which the core only carries through.

use vstd::prelude::*;

verus! {

/// One register transaction for the embedding to perform.
#[derive(Debug, Clone, Copy, PartialEq, Eq)]
pub enum BusOp {
    /// Read the 8-bit register at this address.
    Read8(u16),
    /// Read the 16-bit register at this address.
    Read16(u16),
    /// Write this byte to the 8-bit register at this address.
    Write8(u16, u8),
    /// Write this word to the 16-bit register at this address.
    Write16(u16, u16),
}

/// The outcome of one performed [`BusOp`].
///
/// A reply must match the operation it answers: `Byte` for `Read8`, `Word`
/// for `Read16`, `WriteDone` for the writes, and `Failed` for any
/// transaction the bus reported as failed.
#[derive(Debug, Clone, Copy, PartialEq, Eq)]
pub enum BusEvent<E> {
    /// A `Read8` returned this byte.
    Byte(u8),
    /// A `Read16` returned this word.
    Word(u16),
    /// A write completed.
    WriteDone,
    /// The transaction failed with the bus's own error.
    Failed(E),
}

/// Whether an event is a well-formed answer to an operation: a read is
/// answered by a value of its width or a failure, a write by completion or
/// a failure.
pub open spec fn event_answers<E>(op: BusOp, event: BusEvent<E>) -> bool {
    match event {
        BusEvent::Byte(_) => op is Read8,
        BusEvent::Word(_) => op is Read16,
        BusEvent::WriteDone => op is Write8 || op is Write16,
        BusEvent::Failed(_) => true,
    }
}

} // verus!
