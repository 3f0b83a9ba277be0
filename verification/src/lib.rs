//! Free-fall detection core for a board with a 3-axis accelerometer.
//!
//! The library keeps a running window of raw milli-g acceleration samples,
//! averages them on demand, converts the averaged triple to a gravitational
//! magnitude, and applies a hysteresis rule to decide when the board has
//! entered or left free fall.  The two-valued board mode and the signals that
//! drive its transitions are modelled explicitly, so the surrounding program
//! only has to perform the actuator side effects (tone, display) that a
//! signal asks for.
//!
//! All arithmetic is integer arithmetic on milli-g values: a magnitude is
//! compared against a threshold by comparing the squared magnitude in
//! milli-g squared against the squared threshold, which decides the same
//! inequality exactly and avoids floating point entirely.

pub mod accel;
pub mod classifier;
pub mod state;
