//! Driver core for the VL6180X combined time-of-flight ranging and
//! ambient-light sensor.
//!
//! The sensor is reached through a register-oriented serial bus. This crate
//! holds everything the driver decides and computes: validation of the
//! interdependent timing parameters, the exact register sequence of the
//! device bring-up, the two measurement-retrieval disciplines (bounded
//! busy-polling and non-blocking interrupt checks), decoding of
//! device-reported status bytes, and conversion of raw counts into physical
//! units.
//!
//! Bus transactions themselves are left to the caller: each operation is
//! exposed as a small state machine that names the next bus operation
//! ([`bus::BusOp`]) and consumes its outcome ([`bus::BusEvent`]). An
//! embedding (for instance over an async I2C implementation) performs the
//! named transaction and feeds the result back. The machines' contracts pin
//! down, byte for byte, which register operations are issued and what each
//! result means.

pub mod bus;
pub mod config;
pub mod convert;
pub mod device;
pub mod error;
pub mod init;
pub mod measure;
pub mod registers;
pub mod status;

