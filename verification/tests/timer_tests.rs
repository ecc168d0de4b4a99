use porsmo::alert::Alerter;
use porsmo::input::Command;
use porsmo::timer::{timer_show, timer_update, TimerUI};
use porsmo::Stopwatch;

#[test]
fn update_maps_commands_to_accumulator_ops() {
    let mut s = Stopwatch::new(Some(0), 0, 0);
    timer_update(Command::Pause, &mut s, 100);
    assert!(!s.started());
    timer_update(Command::Resume, &mut s, 200);
    assert!(s.started());
    timer_update(Command::Toggle, &mut s, 300);
    assert!(!s.started());
    timer_update(Command::Enter, &mut s, 400);
    assert!(s.started());
    timer_update(Command::Skip, &mut s, 500);
    assert!(s.started());
    assert_eq!(s.elapsed(500), 300);
}

#[test]
fn countdown_frame_short_of_target() {
    let mut alerter = Alerter::new();
    let (frame, alert) = timer_show(300_000, 1_500_000, true, &mut alerter, "12:25:00");
    assert!(alert.is_none());
    assert!(!alerter.fired);
    assert_eq!(frame.lines.len(), 4);
    assert_eq!(frame.lines[0], "Timer");
    assert_eq!(frame.lines[1], "20:00");
    assert_eq!(frame.lines[2], "ETA: 12:25:00");
    assert_eq!(frame.lines[3], "[Q]: quit, [Space]: pause/resume");
    assert!(frame.running);
}

#[test]
fn overrun_frame_alerts_exactly_once() {
    // Target 1500 s. At 1560 s the overrun reads 60 s and the alert
    // fires once; at 1620 s it reads 120 s and no second alert fires.
    let mut alerter = Alerter::new();
    let (frame, alert) = timer_show(1_560_000, 1_500_000, true, &mut alerter, "12:25:00");
    assert_eq!(frame.lines[0], "Timer has ended");
    assert_eq!(frame.lines[1], "+01:00");
    let alert = alert.expect("crossing the target raises the alert");
    assert_eq!(alert.title, "The timer has ended!");
    assert_eq!(alert.message, "Your Timer of 25:00 has ended");
    let (frame2, alert2) = timer_show(1_620_000, 1_500_000, true, &mut alerter, "12:25:00");
    assert_eq!(frame2.lines[1], "+02:00");
    assert!(alert2.is_none());
}

#[test]
fn timer_ui_runs_from_construction() {
    let mut ui = TimerUI::new(1_500_000, 1_000);
    assert_eq!(ui.target, 1_500_000);
    assert_eq!(ui.finish_at, 1_501_000);
    ui.update(Command::Pause, 61_000);
    let (frame, alert) = ui.show(61_000, "09:00:00");
    assert!(alert.is_none());
    assert_eq!(frame.lines[1], "24:00");
    assert!(!frame.running);
}
