//! Control of a radio-control electronic speed controller (ESC) over a PWM
//! output, with every commanded duty held inside a configured safe range.
//!
//! The library decides and never touches hardware. Each operation hands back
//! what is to be written to the output, or how long to wait, and the caller
//! that holds the peripheral carries it out.

pub mod calibration;
pub mod duty;
pub mod esc;
pub mod output;
pub mod step;

pub use calibration::{Calibration, ChannelCalibration};
pub use duty::clamp;
pub use esc::{Esc, RcEsc};
pub use step::{ChannelDuty, ChannelStep, Step};
