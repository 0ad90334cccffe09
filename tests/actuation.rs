use fan_controller::actuator::{
    decide, ActuatorState, Direction, StepCommand, RUN_STEPS,
};
use fan_controller::poll::{PollResult, SensorKind, SensorReading};
use fan_controller::schedule::remaining_sleep_ms;
use fan_controller::stepper::{phase, CoilPattern, StepperRun};

fn temperature(raw: u16) -> PollResult {
    PollResult::Reading(SensorReading { kind: SensorKind::Temperature, raw })
}

#[test]
fn threshold_is_not_exceeded_at_thirty() {
    assert_eq!((300u16 as f32) / 10.0, 30.0f32);
    assert_eq!(decide(temperature(300)), (ActuatorState::FanOff, None));
}

#[test]
fn above_threshold_runs_fan_and_stepper() {
    assert!((301u16 as f32) / 10.0 > 30.0f32);
    let cmd = StepCommand { direction: Direction::Forward, steps: 64 };
    assert_eq!(decide(temperature(301)), (ActuatorState::FanOn, Some(cmd)));
    assert_eq!(RUN_STEPS, 64);
}

#[test]
fn low_reading_keeps_fan_off() {
    assert_eq!(decide(temperature(0)), (ActuatorState::FanOff, None));
    assert_eq!(decide(temperature(215)), (ActuatorState::FanOff, None));
}

#[test]
fn every_failure_is_fail_safe() {
    for r in [PollResult::Timeout, PollResult::FrameError, PollResult::ChecksumError, PollResult::IoError] {
        assert_eq!(decide(r), (ActuatorState::FanOff, None));
    }
}

#[test]
fn relay_is_active_low() {
    assert!(!ActuatorState::FanOn.relay_level_high());
    assert!(ActuatorState::FanOff.relay_level_high());
}

#[test]
fn sleep_accounts_for_elapsed_time() {
    assert_eq!(remaining_sleep_ms(1000, 0), 1000);
    assert_eq!(remaining_sleep_ms(1000, 320), 680);
    assert_eq!(remaining_sleep_ms(1000, 1000), 0);
    assert_eq!(remaining_sleep_ms(1000, 4000), 0);
}

fn collect(steps: usize) -> Vec<CoilPattern> {
    let mut run = StepperRun::new(steps);
    let mut out = Vec::new();
    while let Some(p) = run.next_pattern() {
        out.push(p);
    }
    assert_eq!(run.next_pattern(), None);
    out
}

const OFF: CoilPattern = CoilPattern { in1: false, in2: false, in3: false, in4: false };

#[test]
fn zero_steps_only_turns_coils_off() {
    assert_eq!(collect(0), vec![OFF]);
}

#[test]
fn stepper_cycles_phases_then_turns_off() {
    let a = CoilPattern { in1: true, in2: false, in3: true, in4: false };
    let b = CoilPattern { in1: false, in2: true, in3: true, in4: false };
    let c = CoilPattern { in1: false, in2: true, in3: false, in4: true };
    let d = CoilPattern { in1: true, in2: false, in3: false, in4: true };
    assert_eq!([phase(0), phase(1), phase(2), phase(3)], [a, b, c, d]);
    assert_eq!(collect(2), vec![a, b, c, d, a, b, c, d, OFF]);
}

#[test]
fn stepper_run_of_sixty_four_steps_ends_off() {
    let ps = collect(64);
    assert_eq!(ps.len(), 4 * 64 + 1);
    assert_eq!(*ps.last().unwrap(), OFF);
    assert!(ps[..256].iter().all(|p| *p != OFF));
}
