//! Core logic of a small sensor-board firmware: a shared I2C bus with
//! per-transaction mutual exclusion, a registry that configures the bus once,
//! a two-row text display model, an IMU configuration, and the orchestrator
//! state machine that sequences bring-up and the steady sampling loop.
//!
//! Hardware access (the bus controller, the display panel, the IMU chip, the
//! network stack and the timer) lives outside: a host harness performs each
//! requested action and reports its outcome back as an event.

pub mod bus;
pub mod bytes;
pub mod display;
pub mod freq;
pub mod imu;
pub mod laws;
pub mod net;
pub mod orchestrator;
