use disk_usage_monitor::config::Cli;
use disk_usage_monitor::config::check_path;
use disk_usage_monitor::driver::Action;
use disk_usage_monitor::driver::Cycle;
use disk_usage_monitor::driver::Drain;
use disk_usage_monitor::driver::Driver;
use disk_usage_monitor::driver::Event;
use disk_usage_monitor::driver::Phase;
use disk_usage_monitor::driver::Setup;
use disk_usage_monitor::driver::State;
use disk_usage_monitor::error::ConfigError;
use disk_usage_monitor::error::MeasurementError;
use disk_usage_monitor::error::RunError;

fn config(rate: u64) -> Cli {
    Cli { command: "true".to_string(), rate, path: ".".to_string(), output: None }
}

fn measured(text: &str) -> Event {
    Event::Measured { output: text.as_bytes().to_vec() }
}

fn path_ok() -> Event {
    Event::PathChecked { exists: true, is_dir: true }
}

/// A driver that has been taken through setup and is about to poll.
fn running(rate: u64, initial: &str) -> Driver {
    let mut driver = Driver::new(&config(rate));
    assert_eq!(driver.step(path_ok()), Action::OpenOutput);
    assert_eq!(driver.step(Event::OutputOpened), Action::Measure);
    assert!(matches!(driver.step(measured(initial)), Action::Launch { .. }));
    assert_eq!(driver.step(Event::Launched), Action::Poll);
    driver
}

#[test]
fn new_driver_asks_for_the_path_check() {
    let driver = Driver::new(&config(250));
    assert_eq!(driver.state(), State::Idle(Setup::CheckingPath));
    assert_eq!(driver.phase(), Phase::Idle);
    assert_eq!(driver.rate(), 250);
    assert_eq!(driver.pending(), Action::CheckPath);
}

#[test]
fn check_path_accepts_only_an_existing_directory() {
    assert_eq!(check_path(true, true), Ok(()));
    assert_eq!(check_path(true, false), Err(ConfigError::NotADirectory));
    assert_eq!(check_path(false, false), Err(ConfigError::MissingPath));
    assert_eq!(check_path(false, true), Err(ConfigError::MissingPath));
}

#[test]
fn missing_path_fails_before_anything_starts() {
    let mut driver = Driver::new(&config(100));
    let action = driver.step(Event::PathChecked { exists: false, is_dir: false });
    assert_eq!(action, Action::Abort(RunError::Config(ConfigError::MissingPath)));
    assert_eq!(driver.phase(), Phase::Failed);
    assert_eq!(driver.state(), State::Failed(RunError::Config(ConfigError::MissingPath)));
}

#[test]
fn path_that_is_not_a_directory_fails_before_anything_starts() {
    let mut driver = Driver::new(&config(100));
    let action = driver.step(Event::PathChecked { exists: true, is_dir: false });
    assert_eq!(action, Action::Abort(RunError::Config(ConfigError::NotADirectory)));
    for event in [Event::OutputOpened, measured("1\t.\n"), Event::Launched, Event::Recorded] {
        let action = driver.step(event);
        assert_eq!(action, Action::Abort(RunError::Config(ConfigError::NotADirectory)));
    }
}

#[test]
fn setup_goes_in_order() {
    let mut driver = Driver::new(&config(100));
    assert_eq!(driver.pending(), Action::CheckPath);
    assert_eq!(driver.step(path_ok()), Action::OpenOutput);
    assert_eq!(driver.state(), State::Idle(Setup::OpeningOutput));
    assert_eq!(driver.step(Event::OutputOpened), Action::Measure);
    assert_eq!(driver.state(), State::Idle(Setup::Measuring));
    assert_eq!(driver.step(measured("1000\t.\n")), Action::Launch { initial_disk_usage: 1000 });
    assert_eq!(driver.state(), State::Idle(Setup::Launching { initial_disk_usage: 1000 }));
    assert_eq!(driver.phase(), Phase::Idle);
    assert_eq!(driver.step(Event::Launched), Action::Poll);
    assert_eq!(driver.state(), State::Running(Cycle::Polling));
    assert_eq!(driver.phase(), Phase::Running);
}

#[test]
fn output_that_cannot_be_opened_fails_the_run() {
    let mut driver = Driver::new(&config(100));
    driver.step(path_ok());
    assert_eq!(driver.step(Event::OutputFailed), Action::Abort(RunError::OutputUnavailable));
    assert_eq!(driver.phase(), Phase::Failed);
}

#[test]
fn failed_initial_measurement_fails_the_run() {
    let mut driver = Driver::new(&config(100));
    driver.step(path_ok());
    driver.step(Event::OutputOpened);
    assert_eq!(
        driver.step(Event::MeasureFailed),
        Action::Abort(RunError::Measurement(MeasurementError::ToolFailed))
    );
    let mut driver = Driver::new(&config(100));
    driver.step(path_ok());
    driver.step(Event::OutputOpened);
    assert_eq!(
        driver.step(measured("no separator here")),
        Action::Abort(RunError::Measurement(MeasurementError::MissingSeparator))
    );
}

#[test]
fn command_that_cannot_be_launched_fails_the_run() {
    let mut driver = Driver::new(&config(100));
    driver.step(path_ok());
    driver.step(Event::OutputOpened);
    driver.step(measured("5\t.\n"));
    assert_eq!(driver.step(Event::LaunchFailed), Action::Abort(RunError::ChildSpawn));
    assert_eq!(driver.state(), State::Failed(RunError::ChildSpawn));
}

#[test]
fn one_cycle_polls_measures_records_and_sleeps() {
    let mut driver = running(250, "1000\t.\n");
    assert_eq!(driver.step(Event::Polled { exited: false }), Action::Measure);
    assert_eq!(driver.state(), State::Running(Cycle::Measuring));
    assert_eq!(driver.step(measured("1200\t.\n")), Action::Record { disk_usage: 1200 });
    assert_eq!(driver.state(), State::Running(Cycle::Recording { disk_usage: 1200 }));
    assert_eq!(driver.step(Event::Recorded), Action::Sleep { millis: 250 });
    assert_eq!(driver.state(), State::Running(Cycle::Sleeping));
    assert_eq!(driver.step(Event::Slept), Action::Poll);
    assert_eq!(driver.state(), State::Running(Cycle::Polling));
    assert_eq!(driver.phase(), Phase::Running);
}

#[test]
fn sleep_uses_the_configured_rate() {
    for rate in [0u64, 1, 100, u64::MAX] {
        let mut driver = running(rate, "0\t.\n");
        driver.step(Event::Polled { exited: false });
        driver.step(measured("1\t.\n"));
        assert_eq!(driver.step(Event::Recorded), Action::Sleep { millis: rate });
    }
}

#[test]
fn exit_is_followed_by_one_last_sample() {
    let mut driver = running(100, "1000\t.\n");
    assert_eq!(driver.step(Event::Polled { exited: true }), Action::Measure);
    assert_eq!(driver.state(), State::Draining(Drain::Measuring));
    assert_eq!(driver.phase(), Phase::Draining);
    assert_eq!(driver.step(measured("900\t.\n")), Action::Record { disk_usage: 900 });
    assert_eq!(driver.state(), State::Draining(Drain::Recording { disk_usage: 900 }));
    assert_eq!(driver.step(Event::Recorded), Action::Finish);
    assert_eq!(driver.state(), State::Done);
    assert_eq!(driver.phase(), Phase::Done);
}

#[test]
fn done_is_final() {
    let mut driver = running(100, "1000\t.\n");
    driver.step(Event::Polled { exited: true });
    driver.step(measured("900\t.\n"));
    driver.step(Event::Recorded);
    for event in [
        Event::Slept,
        Event::Polled { exited: false },
        measured("1\t"),
        Event::Recorded,
        Event::RecordFailed,
        path_ok(),
    ] {
        assert_eq!(driver.step(event), Action::Finish);
        assert_eq!(driver.state(), State::Done);
    }
}

#[test]
fn failed_poll_fails_the_run() {
    let mut driver = running(100, "1000\t.\n");
    assert_eq!(driver.step(Event::PollFailed), Action::Abort(RunError::ChildStatus));
}

#[test]
fn malformed_measurement_fails_the_run_without_a_record() {
    let outputs: [(&str, MeasurementError); 3] = [
        ("4096 /tmp/work\n", MeasurementError::MissingSeparator),
        ("lots\t/tmp/work\n", MeasurementError::InvalidSize),
        ("99999999999999999999999999999999999999999\t.\n", MeasurementError::OutOfRange),
    ];
    for (output, error) in outputs {
        let mut driver = running(100, "1000\t.\n");
        driver.step(Event::Polled { exited: false });
        let action = driver.step(measured(output));
        assert_eq!(action, Action::Abort(RunError::Measurement(error)));
        assert_eq!(driver.step(Event::Recorded), Action::Abort(RunError::Measurement(error)));

        let mut driver = running(100, "1000\t.\n");
        driver.step(Event::Polled { exited: true });
        let action = driver.step(measured(output));
        assert_eq!(action, Action::Abort(RunError::Measurement(error)));
        assert_eq!(driver.phase(), Phase::Failed);
    }
}

#[test]
fn tool_failure_fails_the_run() {
    let mut driver = running(100, "1000\t.\n");
    driver.step(Event::Polled { exited: false });
    assert_eq!(
        driver.step(Event::MeasureFailed),
        Action::Abort(RunError::Measurement(MeasurementError::ToolFailed))
    );
    let mut driver = running(100, "1000\t.\n");
    driver.step(Event::Polled { exited: true });
    assert_eq!(
        driver.step(Event::MeasureFailed),
        Action::Abort(RunError::Measurement(MeasurementError::ToolFailed))
    );
}

#[test]
fn failed_write_fails_the_run() {
    let mut driver = running(100, "1000\t.\n");
    driver.step(Event::Polled { exited: false });
    driver.step(measured("1\t.\n"));
    assert_eq!(driver.step(Event::RecordFailed), Action::Abort(RunError::Write));
    let mut driver = running(100, "1000\t.\n");
    driver.step(Event::Polled { exited: true });
    driver.step(measured("1\t.\n"));
    assert_eq!(driver.step(Event::RecordFailed), Action::Abort(RunError::Write));
    assert_eq!(driver.state(), State::Failed(RunError::Write));
}

#[test]
fn failure_is_final() {
    let mut driver = running(100, "1000\t.\n");
    driver.step(Event::PollFailed);
    for event in [Event::Slept, Event::Polled { exited: true }, measured("1\t"), Event::Recorded] {
        assert_eq!(driver.step(event), Action::Abort(RunError::ChildStatus));
    }
}

#[test]
fn event_that_does_not_answer_the_pending_action_fails_the_run() {
    let abort = Action::Abort(RunError::UnexpectedEvent);
    let mut driver = Driver::new(&config(100));
    assert_eq!(driver.step(Event::OutputOpened), abort);
    let mut driver = Driver::new(&config(100));
    driver.step(path_ok());
    assert_eq!(driver.step(path_ok()), abort);
    let mut driver = Driver::new(&config(100));
    driver.step(path_ok());
    driver.step(Event::OutputOpened);
    assert_eq!(driver.step(Event::Launched), abort);
    let mut driver = Driver::new(&config(100));
    driver.step(path_ok());
    driver.step(Event::OutputOpened);
    driver.step(measured("1\t"));
    assert_eq!(driver.step(Event::Recorded), abort);
    let mut driver = running(100, "1\t");
    assert_eq!(driver.step(Event::Slept), abort);
    let mut driver = running(100, "1\t");
    driver.step(Event::Polled { exited: false });
    assert_eq!(driver.step(Event::Polled { exited: false }), abort);
    let mut driver = running(100, "1\t");
    driver.step(Event::Polled { exited: false });
    driver.step(measured("2\t"));
    assert_eq!(driver.step(Event::Slept), abort);
    let mut driver = running(100, "1\t");
    driver.step(Event::Polled { exited: false });
    driver.step(measured("2\t"));
    driver.step(Event::Recorded);
    assert_eq!(driver.step(Event::Recorded), abort);
    let mut driver = running(100, "1\t");
    driver.step(Event::Polled { exited: true });
    assert_eq!(driver.step(Event::Slept), abort);
    let mut driver = running(100, "1\t");
    driver.step(Event::Polled { exited: true });
    driver.step(measured("2\t"));
    assert_eq!(driver.step(Event::Slept), abort);
    assert_eq!(driver.state(), State::Failed(RunError::UnexpectedEvent));
}
