use sysstats::driver::{pause_nanos, Action, Driver, Mode, Outcome, Phase, EXIT_FAILURE};

#[test]
fn one_shot_refreshes_emits_and_exits() {
    let driver = Driver::start(Mode::OneShot);
    assert_eq!(driver.action(), Action::Refresh);
    let driver = driver.next(Outcome::Done);
    assert_eq!(driver.action(), Action::Emit);
    let driver = driver.next(Outcome::Done);
    assert_eq!(driver.action(), Action::Exit { code: 0 });
    assert_eq!(driver.phase, Phase::Exited { code: 0 });
}

#[test]
fn one_shot_write_failure_exits_non_zero() {
    let driver = Driver::start(Mode::OneShot).next(Outcome::Done).next(Outcome::Failed);
    assert_eq!(driver.action(), Action::Exit { code: EXIT_FAILURE });
    assert_ne!(EXIT_FAILURE, 0);
}

#[test]
fn loop_sleeps_before_the_first_refresh() {
    let driver = Driver::start(Mode::Loop { interval_nanos: 1_000_000_000 });
    assert_eq!(driver.action(), Action::Sleep { nanos: 1_000_000_000 });
    assert_eq!(driver.next(Outcome::Done).action(), Action::Refresh);
}

#[test]
fn loop_goes_round() {
    let mode = Mode::Loop { interval_nanos: 100_000_000 };
    let mut driver = Driver::start(mode);
    let mut seen = Vec::new();
    for _ in 0..9 {
        seen.push(driver.action());
        driver = driver.next(Outcome::Done);
    }
    let sleep = Action::Sleep { nanos: 100_000_000 };
    assert_eq!(
        seen,
        vec![
            sleep,
            Action::Refresh,
            Action::Emit,
            Action::Flush,
            sleep,
            Action::Refresh,
            Action::Emit,
            Action::Flush,
            sleep,
        ]
    );
    assert_eq!(driver.mode, mode);
}

#[test]
fn loop_ends_when_a_write_fails() {
    let start = Driver::start(Mode::Loop { interval_nanos: 5 });
    let emitting = start.next(Outcome::Done).next(Outcome::Done);
    assert_eq!(emitting.phase, Phase::Emitting);
    assert_eq!(emitting.next(Outcome::Failed).action(), Action::Exit { code: EXIT_FAILURE });
    let flushing = emitting.next(Outcome::Done);
    assert_eq!(flushing.action(), Action::Flush);
    let ended = flushing.next(Outcome::Failed);
    assert_eq!(ended.action(), Action::Exit { code: EXIT_FAILURE });
    assert_eq!(ended.next(Outcome::Done), ended);
    assert_eq!(ended.next(Outcome::Failed), ended);
}

#[test]
fn sleep_and_refresh_always_go_on() {
    let start = Driver::start(Mode::Loop { interval_nanos: 5 });
    assert_eq!(start.next(Outcome::Failed).phase, Phase::Refreshing);
    assert_eq!(start.next(Outcome::Failed).next(Outcome::Failed).phase, Phase::Emitting);
}

#[test]
fn intervals_of_zero_or_less_sleep_the_shortest() {
    assert_eq!(pause_nanos(-1_000_000_000), 0);
    assert_eq!(pause_nanos(0), 0);
    assert_eq!(pause_nanos(i64::MIN), 0);
    assert_eq!(pause_nanos(1), 1);
    assert_eq!(pause_nanos(i64::MAX), 9_223_372_036_854_775_807);
    let driver = Driver::start(Mode::Loop { interval_nanos: -1_000_000_000 });
    assert_eq!(driver.action(), Action::Sleep { nanos: 0 });
}
