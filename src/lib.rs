//! Step-by-step control of planar motion primitives.
//!
//! The library decides, call by call, what a bounded ramp generator emits and
//! when a trajectory segment finishes. The numeric work on the vehicle state
//! is driven by these decisions.

mod ramp;
mod segment;

pub use ramp::{RampCursor, RampPoint};
pub use segment::{StepResult, StraightClock, StraightMove};
