//! Buttons: what the device's keys are called, the evdev wire format they arrive in, the
//! mask the game is polled with, the trace line a bring-up session writes, and a host
//! keyboard standing in for the device's buttons.

pub mod btn;
pub mod evdev;
pub mod mask;
pub mod trace;
pub mod host;
