use garage::api::{
    cistern_level_handler, door_control_handler, door_status_handler, parse_argument, parse_body,
    LevelReport, Status,
};
use garage::cistern::{Calibration, Cistern};
use garage::door::{Command, GarageDoor};
use garage::relay::{Line, Relays, Step};

#[test]
fn parse_body_knows_the_three_words() {
    assert_eq!(parse_body(b"OPEN"), Some(Command::Open));
    assert_eq!(parse_body(b"STOP"), Some(Command::Stop));
    assert_eq!(parse_body(b"CLOSE"), Some(Command::Close));
}

#[test]
fn parse_body_takes_nothing_else() {
    assert_eq!(parse_body(b""), None);
    assert_eq!(parse_body(b"FOO"), None);
    assert_eq!(parse_body(b"open"), None);
    assert_eq!(parse_body(b"Open"), None);
    assert_eq!(parse_body(b"OPEN\n"), None);
    assert_eq!(parse_body(b" OPEN"), None);
    assert_eq!(parse_body(b"OPEN "), None);
    assert_eq!(parse_body(b"OPE"), None);
    assert_eq!(parse_body(b"OPEM"), None);
    assert_eq!(parse_body(b"STOPCLOSE"), None);
    assert_eq!(parse_body(b"CLOSED"), None);
    assert_eq!(parse_body(&[0xff, 0xfe, 0x4f, 0x50]), None);
}

#[test]
fn parse_argument_knows_the_three_words() {
    assert_eq!(parse_argument("open"), Some(Command::Open));
    assert_eq!(parse_argument("stop"), Some(Command::Stop));
    assert_eq!(parse_argument("close"), Some(Command::Close));
    assert_eq!(parse_argument("OPEN"), None);
    assert_eq!(parse_argument(""), None);
    assert_eq!(parse_argument("opens"), None);
    assert_eq!(parse_argument("status"), None);
    assert_eq!(parse_argument("\u{f6}pen"), None);
}

#[test]
fn status_numbers() {
    assert_eq!(Status::Success.code(), 200);
    assert_eq!(Status::NotImplemented.code(), 501);
}

#[test]
fn unknown_body_is_not_implemented_and_leaves_the_door() {
    for closed in [true, false] {
        let (mut door, _) = GarageDoor::new(closed);
        let reply = door_control_handler(&mut door, b"FOO");
        assert_eq!(reply.status, Status::NotImplemented);
        assert_eq!(reply.status.code(), 501);
        assert_eq!(reply.plan, Vec::<Step>::new());
        assert_eq!(door, GarageDoor::new(closed).0);
        assert_eq!(door.is_closed(), closed);
        assert_eq!(door_status_handler(&mut door), if closed { "CLOSED" } else { "OPEN" });
    }
}

#[test]
fn body_that_is_no_text_is_not_implemented() {
    let (mut door, _) = GarageDoor::new(true);
    let reply = door_control_handler(&mut door, &[0xc3, 0x28]);
    assert_eq!(reply.status, Status::NotImplemented);
    assert!(reply.plan.is_empty());
}

#[test]
fn open_body_opens_the_door() {
    let (mut door, _) = GarageDoor::new(true);
    let reply = door_control_handler(&mut door, b"OPEN");
    assert_eq!(reply.status, Status::Success);
    assert_eq!(
        reply.plan,
        vec![
            Step::Release(Line::Halt),
            Step::Release(Line::Close),
            Step::Engage(Line::Open),
            Step::Wait(500),
            Step::Release(Line::Open),
        ]
    );
    assert_eq!(door.lines(), Relays::new());
}

#[test]
fn close_body_interlocks_where_the_door_is_not_closed() {
    let (mut door, _) = GarageDoor::new(false);
    let reply = door_control_handler(&mut door, b"CLOSE");
    assert_eq!(reply.status, Status::Success);
    assert_eq!(
        reply.plan,
        vec![
            Step::Release(Line::Open),
            Step::Release(Line::Close),
            Step::Engage(Line::Halt),
            Step::Wait(500),
            Step::Release(Line::Halt),
            Step::Wait(500),
            Step::Release(Line::Halt),
            Step::Release(Line::Open),
            Step::Engage(Line::Close),
            Step::Wait(500),
            Step::Release(Line::Close),
        ]
    );
}

#[test]
fn stop_body_stops_the_door() {
    let (mut door, _) = GarageDoor::new(false);
    let reply = door_control_handler(&mut door, b"STOP");
    assert_eq!(reply.status, Status::Success);
    assert_eq!(
        reply.plan,
        vec![
            Step::Release(Line::Open),
            Step::Release(Line::Close),
            Step::Engage(Line::Halt),
            Step::Wait(500),
            Step::Release(Line::Halt),
        ]
    );
}

#[test]
fn door_status_follows_the_sensor() {
    let (mut door, _) = GarageDoor::new(true);
    assert_eq!(door_status_handler(&mut door), "CLOSED");
    door.observe(false);
    assert_eq!(door_status_handler(&mut door), "OPEN");
}

#[test]
fn cistern_level_is_absent_before_the_first_measurement() {
    let cistern = Cistern::new(Calibration::new(100, 1100, 5000).unwrap());
    assert_eq!(cistern_level_handler(&cistern), None);
}

#[test]
fn cistern_level_reports_the_fraction_as_a_percentage() {
    let mut cistern = Cistern::new(Calibration::new(100, 1100, 5000).unwrap());
    assert_eq!(cistern.measure(Ok(600)), Ok(()));
    let report = cistern_level_handler(&cistern);
    assert_eq!(
        report,
        Some(LevelReport { fill_height: 600, percentage: 50_000_000, volume: 2500 })
    );
    assert_eq!(report.unwrap().percentage as f64 / 1_000_000.0, 50.0);
}

#[test]
fn cistern_level_of_a_full_tank_is_a_hundred_percent() {
    let mut cistern = Cistern::new(Calibration::new(0, u32::MAX, u32::MAX).unwrap());
    assert_eq!(cistern.measure(Ok(u32::MAX)), Ok(()));
    assert_eq!(
        cistern_level_handler(&cistern),
        Some(LevelReport { fill_height: u32::MAX, percentage: 100_000_000, volume: u32::MAX })
    );
}
