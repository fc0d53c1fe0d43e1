use rustarok::systems::{measure_time, Sex, SystemFrameDurations, SystemStopwatch};

#[test]
fn records_overwrite_by_name() {
    let mut d = SystemFrameDurations::new();
    d.record("physics", 3);
    d.record("render", 7);
    d.record("physics", 5);
    assert_eq!(d.0, vec![("physics", 5), ("render", 7)]);
}

#[test]
fn stopwatch_records_under_its_name() {
    let mut d = SystemFrameDurations::new();
    let w = d.start_measurement("input");
    w.finish(&mut d);
    let w2 = SystemStopwatch::new("input");
    w2.finish(&mut d);
    assert_eq!(d.0.len(), 1);
    assert_eq!(d.0[0].0, "input");
    assert!(d.0[0].1 < 1000);
}

#[test]
fn system_finished_records_elapsed() {
    let mut d = SystemFrameDurations::new();
    d.system_finished(std::time::Instant::now(), "sound");
    assert_eq!(d.0.len(), 1);
    assert_eq!(d.0[0].0, "sound");
}

#[test]
fn measure_time_returns_result() {
    let (elapsed, r) = measure_time(|| 6 * 7);
    assert_eq!(r, 42);
    assert!(elapsed.as_secs() < 10);
    assert!(Sex::Male != Sex::Female);
}
