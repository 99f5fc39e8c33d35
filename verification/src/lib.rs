//! A minimal tire-pressure monitoring library.
//!
//! An [`alarm::Alarm`] pulls readings from a [`sensor::PressureSensor`] and
//! latches a boolean flag as soon as one reading falls strictly outside the
//! safe range. Readings are carried as [`pressure::Pressure`] values, held in
//! thousandths of a PSI, so that the threshold policy is exact.

pub mod alarm;
pub mod pressure;
pub mod sensor;
