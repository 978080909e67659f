//! Motion-control core for a two-wire (step + direction) stepper motor.
//!
//! A move is a trapezoidal speed profile over a fixed number of steps. The
//! crate holds every decision of such a move as state machines over plain
//! values; the caller owns the pins, the two hardware timers and the threads,
//! performs the actions the machines hand out and reports back what happened.

pub mod gpio;
pub mod stepper_web_control;
