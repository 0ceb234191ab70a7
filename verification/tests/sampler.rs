use garage::cistern::{Calibration, Cistern, SensorReadError, Snapshot};
use garage::sampler::{Sampler, SamplerAction};

#[test]
fn new_sampler_is_running() {
    let sampler = Sampler::new();
    assert!(!sampler.is_stopped());
}

#[test]
fn sampler_measures_while_nothing_asks_it_to_stop() {
    let mut sampler = Sampler::new();
    assert_eq!(sampler.poll(None), SamplerAction::Measure);
    assert_eq!(sampler.poll(Some(false)), SamplerAction::Measure);
    assert_eq!(sampler.poll(None), SamplerAction::Measure);
    assert!(!sampler.is_stopped());
}

#[test]
fn sampler_exits_in_the_pass_that_sees_the_notice() {
    let mut sampler = Sampler::new();
    assert_eq!(sampler.poll(None), SamplerAction::Measure);
    assert_eq!(sampler.poll(Some(true)), SamplerAction::Exit);
    assert!(sampler.is_stopped());
}

#[test]
fn sampler_never_measures_again_after_the_notice() {
    let mut sampler = Sampler::new();
    assert_eq!(sampler.poll(Some(true)), SamplerAction::Exit);
    for notice in [None, Some(false), Some(true), None, Some(false)] {
        assert_eq!(sampler.poll(notice), SamplerAction::Exit);
        assert!(sampler.is_stopped());
    }
}

#[test]
fn failed_samples_do_not_stop_the_loop() {
    let mut sampler = Sampler::new();
    let mut cistern = Cistern::new(Calibration::new(0, 2000, 8000).unwrap());
    let samples = [
        Err(SensorReadError { detail: "nack".to_string() }),
        Ok(500),
        Err(SensorReadError { detail: "timeout".to_string() }),
        Err(SensorReadError { detail: "timeout".to_string() }),
        Ok(1500),
    ];
    let mut measured = 0;
    let mut reported = Vec::new();
    for sample in samples {
        match sampler.poll(None) {
            SamplerAction::Exit => break,
            SamplerAction::Measure => {
                measured += 1;
                if let Err(error) = cistern.measure(sample) {
                    reported.push(error.detail);
                }
            },
        }
    }
    assert_eq!(measured, 5);
    assert_eq!(reported, vec!["nack", "timeout", "timeout"]);
    assert_eq!(cistern.level(), Some(Snapshot { height: 1500, percentage: 750_000, volume: 6000 }));
}

#[test]
fn no_sample_is_taken_after_shutdown() {
    let mut sampler = Sampler::new();
    let mut cistern = Cistern::new(Calibration::new(0, 2000, 8000).unwrap());
    let passes = [(None, 400), (Some(false), 800), (Some(true), 1200), (None, 1600)];
    let mut measured = 0;
    for (notice, raw) in passes {
        match sampler.poll(notice) {
            SamplerAction::Exit => break,
            SamplerAction::Measure => {
                measured += 1;
                assert_eq!(cistern.measure(Ok(raw)), Ok(()));
            },
        }
    }
    assert_eq!(measured, 2);
    assert_eq!(cistern.level(), Some(Snapshot { height: 800, percentage: 400_000, volume: 3200 }));
    assert_eq!(sampler.poll(None), SamplerAction::Exit);
}
