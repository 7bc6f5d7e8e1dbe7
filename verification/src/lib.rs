//! Verified core of a driver for a single-axis rate gyroscope reached over a
//! synchronous serial bus.
//!
//! The crate holds the two pieces of the driver that carry all of its logic:
//! the register-access protocol (command framing, parity, status checking and
//! data-field extraction) and the time-integration engine that turns raw rate
//! samples into a drift-corrected angle. The bus transport, the millisecond
//! clock and the polling loop are collaborators of the surrounding
//! application: every function here takes plain values (frames as words,
//! timestamps in milliseconds) and returns plain values, so the whole core is
//! verified and deterministic.
//!
//! All integration arithmetic is exact: the running integral is kept as an
//! integer in doubled raw-unit-milliseconds, so the trapezoidal rule needs no
//! rounding. Conversions into engineering units are exposed in whole
//! nano-degrees; scaling into fractional degrees is the caller's affair.

pub mod accumulator;
pub mod gyro;
pub mod protocol;
