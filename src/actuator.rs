//! The fail-safe actuation decision: the fan runs, and the stepper turns,
//! only on a valid temperature reading above the threshold.
use vstd::prelude::*;
use crate::poll::{PollResult, SensorReading};

verus! {

/// Threshold in tenths of a degree: a reading above 30.0 degrees switches
/// the fan on; exactly 30.0 does not.
pub const THRESHOLD_TENTHS: u16 = 300;

/// Steps the stepper runs for while the fan is on.
pub const RUN_STEPS: usize = 64;

/// The commanded relay state.
#[derive(Clone, Copy, Debug, PartialEq, Eq, Structural)]
pub enum ActuatorState {
    FanOn,
    FanOff,
}

/// Direction of a stepper run; this design only turns forward.
#[derive(Clone, Copy, Debug, PartialEq, Eq, Structural)]
pub enum Direction {
    Forward,
}

/// A stepper run to carry out before the next tick.
#[derive(Clone, Copy, Debug, PartialEq, Eq, Structural)]
pub struct StepCommand {
    pub direction: Direction,
    pub steps: usize,
}

/// Whether a temperature result calls for the fan: only a reading above the
/// threshold does; every failure is treated as "do not actuate".
pub open spec fn calls_for_fan(result: PollResult) -> bool {
    match result {
        PollResult::Reading(r) => r.raw > THRESHOLD_TENTHS,
        _ => false,
    }
}

/// The relay state and stepper command for the latest temperature result.
pub fn decide(temperature_result: PollResult) -> (r: (ActuatorState, Option<StepCommand>))
    ensures
        calls_for_fan(temperature_result) ==> r == (
        ActuatorState::FanOn,
        Some(StepCommand { direction: Direction::Forward, steps: RUN_STEPS }),
        ),
        !calls_for_fan(temperature_result) ==> r == (ActuatorState::FanOff, None::<StepCommand>),
{
    match temperature_result {
        PollResult::Reading(SensorReading { kind: _, raw }) => {
            if raw > THRESHOLD_TENTHS {
                (
                    ActuatorState::FanOn,
                    Some(StepCommand { direction: Direction::Forward, steps: RUN_STEPS }),
                )
            } else {
                (ActuatorState::FanOff, None)
            }
        },
        _ => (ActuatorState::FanOff, None),
    }
}

impl ActuatorState {
    /// The electrical level of the relay line: the relay is active low, so
    /// the fan runs while the line is low.
    pub fn relay_level_high(&self) -> (r: bool)
        ensures
            r == (*self == ActuatorState::FanOff),
    {
        match self {
            ActuatorState::FanOn => false,
            ActuatorState::FanOff => true,
        }
    }
}

} // verus!
