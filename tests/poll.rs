use fan_controller::poll::{parse_response, PollCycle, PollResult, PollStep, SensorKind, SensorReading};

const TEMP_301: [u8; 7] = [0x01, 0x04, 0x02, 0x01, 0x2D, 0x78, 0xBD];

#[test]
fn register_addresses() {
    assert_eq!(SensorKind::Temperature.register_address(), 0x0001);
    assert_eq!(SensorKind::Humidity.register_address(), 0x0002);
}

#[test]
fn parse_valid_response() {
    let r = parse_response(SensorKind::Temperature, &TEMP_301);
    assert_eq!(r, PollResult::Reading(SensorReading { kind: SensorKind::Temperature, raw: 301 }));
}

#[test]
fn parse_exception_flag_is_frame_error() {
    let mut f = TEMP_301;
    f[1] = 0x84;
    assert_eq!(parse_response(SensorKind::Temperature, &f), PollResult::FrameError);
}

#[test]
fn parse_wrong_byte_count_is_frame_error() {
    let mut f = TEMP_301;
    f[2] = 3;
    assert_eq!(parse_response(SensorKind::Humidity, &f), PollResult::FrameError);
}

#[test]
fn parse_bad_checksum_is_checksum_error() {
    let mut f = TEMP_301;
    f[4] = 0x2C;
    assert_eq!(parse_response(SensorKind::Temperature, &f), PollResult::ChecksumError);
}

#[test]
fn parse_short_response_is_timeout() {
    assert_eq!(parse_response(SensorKind::Temperature, &TEMP_301[..6]), PollResult::Timeout);
}

#[test]
fn request_of_cycle() {
    let c = PollCycle::new(1, SensorKind::Humidity, 10);
    assert_eq!(c.request(), vec![0x01, 0x04, 0x00, 0x02, 0x00, 0x01, 0x90, 0x0A]);
}

#[test]
fn failed_write_is_io_error() {
    let mut c = PollCycle::new(1, SensorKind::Temperature, 10);
    assert_eq!(c.on_write(false), PollStep::Done(PollResult::IoError));
    assert_eq!(c.on_read(Some(0x01)), PollStep::Done(PollResult::IoError));
    assert_eq!(c.outcome(), Some(PollResult::IoError));
}

#[test]
fn zero_budget_times_out_at_once() {
    let mut c = PollCycle::new(1, SensorKind::Temperature, 0);
    assert_eq!(c.on_write(true), PollStep::Done(PollResult::Timeout));
}

#[test]
fn timeout_after_exactly_the_budget() {
    let budget = 5u32;
    let mut c = PollCycle::new(1, SensorKind::Temperature, budget);
    assert_eq!(c.on_write(true), PollStep::Read);
    // six bytes arrive, never a seventh
    for &b in &TEMP_301[..6] {
        assert_eq!(c.on_read(Some(b)), PollStep::Read);
    }
    for _ in 0..budget - 1 {
        assert_eq!(c.on_read(None), PollStep::Read);
        assert_eq!(c.outcome(), None);
    }
    assert_eq!(c.on_read(None), PollStep::Done(PollResult::Timeout));
}

#[test]
fn bytes_do_not_reset_the_budget() {
    let mut c = PollCycle::new(1, SensorKind::Temperature, 2);
    assert_eq!(c.on_write(true), PollStep::Read);
    assert_eq!(c.on_read(None), PollStep::Read);
    assert_eq!(c.on_read(Some(0x01)), PollStep::Read);
    assert_eq!(c.on_read(None), PollStep::Done(PollResult::Timeout));
}

#[test]
fn complete_response_with_misses_between() {
    let mut c = PollCycle::new(1, SensorKind::Temperature, 3);
    assert_eq!(c.on_write(true), PollStep::Read);
    let mut last = PollStep::Read;
    for (i, &b) in TEMP_301.iter().enumerate() {
        if i == 2 || i == 5 {
            assert_eq!(c.on_read(None), PollStep::Read);
        }
        last = c.on_read(Some(b));
    }
    let reading = PollResult::Reading(SensorReading { kind: SensorKind::Temperature, raw: 301 });
    assert_eq!(last, PollStep::Done(reading));
    // later reads change nothing
    assert_eq!(c.on_read(None), PollStep::Done(reading));
    assert_eq!(c.outcome(), Some(reading));
}

#[test]
fn corrupted_response_in_cycle_is_checksum_error() {
    let mut c = PollCycle::new(1, SensorKind::Humidity, 3);
    c.on_write(true);
    let mut f = TEMP_301;
    f[6] ^= 0x01;
    let mut last = PollStep::Read;
    for &b in &f {
        last = c.on_read(Some(b));
    }
    assert_eq!(last, PollStep::Done(PollResult::ChecksumError));
}
