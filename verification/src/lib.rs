//! Firmware core for a board that reads a three-axis magnetometer over an
//! addressed serial bus and drives a pair of indicator outputs from the sign
//! of the first axis.
//!
//! The crate holds the bus-independent logic: the register protocol and byte
//! decoding of the sensor ([`compass`], [`sample`]), the sign classifier that
//! turns a reading into actuator commands ([`actuator`]), and the control
//! loop's phase machine ([`controller`]). The actual bus transport is reached
//! through the [`bus::TransactionBus`] interface, which the board support
//! code implements over the hardware peripheral.

pub mod actuator;
pub mod bus;
pub mod compass;
pub mod controller;
pub mod sample;
