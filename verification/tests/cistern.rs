use garage::cistern::{Calibration, Cistern, SensorReadError, Snapshot, FULL_SCALE};

fn tank() -> Calibration {
    Calibration::new(100, 1100, 5000).unwrap()
}

fn failure(detail: &str) -> SensorReadError {
    SensorReadError { detail: detail.to_string() }
}

#[test]
fn full_scale_is_a_million() {
    assert_eq!(FULL_SCALE, 1_000_000);
}

#[test]
fn calibration_needs_empty_below_full() {
    assert!(Calibration::new(0, 1, 0).is_some());
    assert!(Calibration::new(100, 1100, 5000).is_some());
    assert!(Calibration::new(5, 5, 10).is_none());
    assert!(Calibration::new(6, 5, 10).is_none());
    assert!(Calibration::new(u32::MAX, u32::MAX, 1).is_none());
    assert!(Calibration::new(0, u32::MAX, u32::MAX).is_some());
}

#[test]
fn calibration_keeps_its_marks() {
    let calibration = tank();
    assert_eq!(calibration.empty_mark(), 100);
    assert_eq!(calibration.full_mark(), 1100);
    assert_eq!(calibration.tank_capacity(), 5000);
}

#[test]
fn level_is_absent_before_the_first_measurement() {
    let cistern = Cistern::new(tank());
    assert_eq!(cistern.level(), None);
    assert_eq!(cistern.tank(), tank());
}

#[test]
fn measure_stores_the_level_of_the_reading() {
    let mut cistern = Cistern::new(tank());
    assert_eq!(cistern.measure(Ok(600)), Ok(()));
    assert_eq!(cistern.level(), Some(Snapshot { height: 600, percentage: 500_000, volume: 2500 }));
}

#[test]
fn measure_replaces_the_last_level() {
    let mut cistern = Cistern::new(tank());
    assert_eq!(cistern.measure(Ok(600)), Ok(()));
    assert_eq!(cistern.measure(Ok(350)), Ok(()));
    assert_eq!(cistern.level(), Some(Snapshot { height: 350, percentage: 250_000, volume: 1250 }));
}

#[test]
fn readings_outside_the_tank_are_clamped() {
    let mut cistern = Cistern::new(tank());
    assert_eq!(cistern.measure(Ok(0)), Ok(()));
    assert_eq!(cistern.level(), Some(Snapshot { height: 100, percentage: 0, volume: 0 }));
    assert_eq!(cistern.measure(Ok(100)), Ok(()));
    assert_eq!(cistern.level(), Some(Snapshot { height: 100, percentage: 0, volume: 0 }));
    assert_eq!(cistern.measure(Ok(1100)), Ok(()));
    assert_eq!(
        cistern.level(),
        Some(Snapshot { height: 1100, percentage: 1_000_000, volume: 5000 })
    );
    assert_eq!(cistern.measure(Ok(u32::MAX)), Ok(()));
    assert_eq!(
        cistern.level(),
        Some(Snapshot { height: 1100, percentage: 1_000_000, volume: 5000 })
    );
}

#[test]
fn fraction_and_volume_round_down() {
    let calibration = Calibration::new(0, 3, 10).unwrap();
    assert_eq!(calibration.convert(1), Snapshot { height: 1, percentage: 333_333, volume: 3 });
    assert_eq!(calibration.convert(2), Snapshot { height: 2, percentage: 666_666, volume: 6 });
    assert_eq!(calibration.convert(3), Snapshot { height: 3, percentage: 1_000_000, volume: 10 });
}

#[test]
fn convert_holds_for_the_widest_tank() {
    let calibration = Calibration::new(0, u32::MAX, u32::MAX).unwrap();
    assert_eq!(calibration.convert(0), Snapshot { height: 0, percentage: 0, volume: 0 });
    assert_eq!(
        calibration.convert(u32::MAX),
        Snapshot { height: u32::MAX, percentage: 1_000_000, volume: u32::MAX }
    );
    let half = calibration.convert(u32::MAX / 2);
    assert_eq!(half.height, 2_147_483_647);
    assert_eq!(half.percentage, 499_999);
    assert_eq!(half.volume, 2_147_479_352);
}

#[test]
fn a_higher_reading_never_gives_a_lower_level() {
    let calibration = Calibration::new(40, 977, 12_345).unwrap();
    let mut last = calibration.convert(0);
    for raw in 1..1100 {
        let level = calibration.convert(raw);
        assert!(last.height <= level.height);
        assert!(last.percentage <= level.percentage);
        assert!(last.volume <= level.volume);
        assert!(level.percentage <= FULL_SCALE);
        assert!(level.volume <= 12_345);
        last = level;
    }
}

#[test]
fn failed_measure_before_any_level_leaves_none() {
    let mut cistern = Cistern::new(tank());
    assert_eq!(cistern.measure(Err(failure("bus timeout"))), Err(failure("bus timeout")));
    assert_eq!(cistern.level(), None);
}

#[test]
fn failed_measure_keeps_the_last_level() {
    let mut cistern = Cistern::new(tank());
    assert_eq!(cistern.measure(Ok(600)), Ok(()));
    let before = cistern.level();
    assert_eq!(cistern.measure(Err(failure("no answer"))), Err(failure("no answer")));
    assert_eq!(cistern.level(), before);
    assert_eq!(cistern.measure(Ok(850)), Ok(()));
    assert_eq!(cistern.level(), Some(Snapshot { height: 850, percentage: 750_000, volume: 3750 }));
}
