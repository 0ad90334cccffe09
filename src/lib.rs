//! Controller core for a serial humidity/temperature sensor that drives a fan
//! relay and a stepper motor: frame encoding and checksum validation, the
//! bounded-wait response assembly, the fail-safe actuation decision and the
//! stepper coil schedule.
use vstd::prelude::*;

pub mod codec;
pub mod poll;
pub mod actuator;
pub mod stepper;
pub mod schedule;

verus! {

} // verus!
