//! Verified core of a HarvestHub field probe.
//!
//! The crate holds every rule that the probe firmware follows: decoding and compensation of the
//! air and soil sensors, the motor command protocol, the Bluetooth sessions and the measurement
//! cycle. Whatever touches hardware is left to the program around the library: a state machine
//! names the next action, the program performs it and hands back what happened.

pub mod advertising;
pub mod arith;
pub mod bme280;
pub mod bytes;
pub mod calibration;
pub mod clock;
pub mod config;
pub mod fw_codec;
pub mod gatt;
pub mod hci;
pub mod host_codec;
pub mod i2c;
pub mod identity;
pub mod lifecycle;
pub mod measure;
pub mod motor_command;
pub mod motor_uart;
pub mod setup;
pub mod snapshot;
pub mod text;
pub mod uart;
pub mod zts3000;

pub use measure::Measure;
