use rustarok::time::{ElapsedTime, EngineTime, MAX_MILLIS_ALLOWED_FOR_SINGLE_FRAME};

#[test]
fn reverted_clock_steps_back_nominally() {
    let mut clock = EngineTime::new();
    for _ in 0..9 {
        clock.update_timers_for_prediction();
    }
    assert_eq!(clock.tick, 10);
    let before = clock;
    let reverted = clock.reverted_to(clock.tick - 3);
    assert_eq!(reverted.tick, 7);
    assert_eq!(reverted.now(), ElapsedTime(clock.now().0 - 3 * MAX_MILLIS_ALLOWED_FOR_SINGLE_FRAME as i64));
    assert_eq!(clock, before);
}

#[test]
fn frame_step_is_clamped() {
    let mut clock = EngineTime::new();
    assert_eq!(MAX_MILLIS_ALLOWED_FOR_SINGLE_FRAME, 33);
    clock.update_timers(500);
    assert_eq!(clock.dt(), 33);
    assert_eq!(clock.now(), ElapsedTime(33));
    clock.update_timers(10);
    assert_eq!(clock.dt(), 10);
    assert_eq!(clock.now(), ElapsedTime(43));
    assert_eq!(clock.tick, 3);
}

#[test]
fn fixed_step_clock_ignores_frame_time() {
    let mut clock = EngineTime::new_for_tests(5);
    clock.update_timers(500);
    clock.update_timers(1);
    assert_eq!(clock.now(), ElapsedTime(10));
    assert_eq!(clock.tick, 3);
}

#[test]
fn elapsed_time_arithmetic() {
    let t = ElapsedTime(1000);
    assert_eq!(t.add_millis(-500), ElapsedTime(500));
    assert_eq!(t.minus(ElapsedTime(1500)), ElapsedTime(-500));
    assert_eq!(t.add(ElapsedTime(1)), ElapsedTime(1001));
    assert_eq!(t.elapsed_since(ElapsedTime(400)), ElapsedTime(600));
    assert_eq!(t.percentage_between(ElapsedTime(0), ElapsedTime(4000)).as_i16(), 25);
    assert!(t.has_already_passed(ElapsedTime(1000)));
    assert!(!t.has_not_passed_yet(ElapsedTime(1000)));
    assert!(t.is_later_than(ElapsedTime(999)));
    assert!(t.is_earlier_than(ElapsedTime(1000)));
    assert_eq!(t.max(ElapsedTime(5)), t);
    assert_eq!(t.min(ElapsedTime(5)), ElapsedTime(5));
    assert_eq!(t.as_millis(), 1000);
    let mut deadline = ElapsedTime(100);
    deadline.run_at_least_until_millis(ElapsedTime(50), 100);
    assert_eq!(deadline, ElapsedTime(150));
    deadline.run_at_least_until_millis(ElapsedTime(0), 10);
    assert_eq!(deadline, ElapsedTime(150));
}
