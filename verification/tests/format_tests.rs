use porsmo::alert::Alerter;
use porsmo::config::{Config, PomodoroConfigSerializable};
use porsmo::error::PorsmoError;
use porsmo::format::{format_duration, two_digits, u64_to_string};
use porsmo::pomodoro::PomodoroConfig;

#[test]
fn decimal_rendering() {
    assert_eq!(u64_to_string(0), "0");
    assert_eq!(u64_to_string(7), "7");
    assert_eq!(u64_to_string(10), "10");
    assert_eq!(u64_to_string(1234), "1234");
    assert_eq!(two_digits(0), "00");
    assert_eq!(two_digits(9), "09");
    assert_eq!(two_digits(59), "59");
    assert_eq!(two_digits(100), "100");
}

#[test]
fn duration_rendering() {
    assert_eq!(format_duration(0), "00:00");
    assert_eq!(format_duration(999), "00:00");
    assert_eq!(format_duration(1_000), "00:01");
    assert_eq!(format_duration(60_000), "01:00");
    assert_eq!(format_duration(1_500_000), "25:00");
    assert_eq!(format_duration(3_599_000), "59:59");
    assert_eq!(format_duration(3_600_000), "1:00:00");
    assert_eq!(format_duration(3_661_000), "1:01:01");
    assert_eq!(format_duration(36_000_000 + 754_000), "10:12:34");
}

#[test]
fn alerter_is_one_shot_until_reset() {
    let mut a = Alerter::new();
    let first = a.alert_once("title one", "message one");
    let second = a.alert_once("title two", "message two");
    let first = first.expect("a fresh latch hands out the first alert");
    assert_eq!(first.title, "title one");
    assert_eq!(first.message, "message one");
    assert!(second.is_none());
    a.reset();
    let third = a.alert_once("title three", "message three");
    assert!(third.is_some());
    assert!(a.alert_once("title four", "message four").is_none());
}

#[test]
fn config_defaults_are_the_short_preset_in_seconds() {
    let c = Config::new();
    assert_eq!(c.pomodoro_timings.work_time, 1500);
    assert_eq!(c.pomodoro_timings.break_time, 300);
    assert_eq!(c.pomodoro_timings.long_break, 600);
    assert_eq!(c.pomodoro_timings, PomodoroConfigSerializable::default());
}

#[test]
fn serializable_shape_truncates_to_seconds() {
    let cfg = PomodoroConfig::new(1_500_999, 300_000, 600_000);
    let stored = PomodoroConfigSerializable::from(cfg);
    assert_eq!(stored.work_time, 1500);
    assert_eq!(stored.break_time, 300);
    assert_eq!(stored.long_break, 600);
}

#[test]
fn error_messages() {
    assert_eq!(
        PorsmoError::FailedRawModeEnter(String::from("os error")).message(),
        "Error entering raw mode in terminal"
    );
    assert_eq!(
        PorsmoError::FailedInitialization(String::from("os error")).message(),
        "Error initializing terminal with alternate screen and mouse capture"
    );
    assert_eq!(
        PorsmoError::WrongFormatError.message(),
        "Wrong format for time"
    );
    assert_eq!(
        PorsmoError::ParseIntError(String::from("invalid digit found in string")).message(),
        "invalid digit found in string"
    );
    assert_eq!(
        PorsmoError::CrosstermError(String::from("broken pipe")).message(),
        "broken pipe"
    );
}
