//! The driver's error taxonomy.

use vstd::prelude::*;
use crate::status::AmbientStatusErrorCode;
use crate::status::RangeStatusErrorCode;

verus! {

/// Everything a driver operation can fail with.
///
/// `Timeout` and `ResultNotReady` mean "try again later"; every other
/// variant is terminal for the operation that returned it. `E` is the error
/// type of the underlying transaction primitive: the bus error type for
/// `BusError`, the pin error type for `GpioPinError`.
#[derive(Debug, Clone, Copy, PartialEq, Eq)]
pub enum Error<E> {
    /// The blocking read exhausted its poll budget without seeing a result.
    Timeout,
    /// The non-blocking check found no result waiting.
    ResultNotReady,
    /// A validated setter rejected this value.
    InvalidConfigurationValue(u16),
    /// Re-addressing was asked for an address outside 0x08..=0x77.
    InvalidAddress(u8),
    /// The device reported a status byte that maps to no documented code.
    UnknownRegisterCode(u8),
    /// The device reported a mapped, non-nominal range status.
    RangeStatusError(RangeStatusErrorCode),
    /// The device reported a mapped, non-nominal ambient status.
    AmbientStatusError(AmbientStatusErrorCode),
    /// A bus transaction failed; carries the bus's own error.
    BusError(E),
    /// Driving the shutdown pin failed; carries the pin's own error.
    GpioPinError(E),
}

} // verus!
