//! Pin-level devices.

pub mod stepper;
