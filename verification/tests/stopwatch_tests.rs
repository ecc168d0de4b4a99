use porsmo::input::Command;
use porsmo::stopwatch::{Stopwatch, StopwatchUI};

#[test]
fn fresh_running_counts_from_zero() {
    let s = Stopwatch::new(Some(0), 0, 0);
    assert!(s.started());
    assert_eq!(s.elapsed(0), 0);
    assert_eq!(s.elapsed(250), 250);
    assert_eq!(s.elapsed(1000), 1000);
}

#[test]
fn stop_freezes_elapsed() {
    let mut s = Stopwatch::new(Some(0), 0, 0);
    s.stop(400);
    assert!(!s.started());
    assert_eq!(s.elapsed(400), 400);
    assert_eq!(s.elapsed(9000), 400);
}

#[test]
fn start_resumes_from_accumulated() {
    let mut s = Stopwatch::new(Some(0), 0, 0);
    s.stop(400);
    s.start(1000);
    assert!(s.started());
    assert_eq!(s.elapsed(1000), 400);
    assert_eq!(s.elapsed(1600), 1000);
}

#[test]
fn start_while_running_changes_nothing() {
    let mut s = Stopwatch::new(Some(0), 0, 0);
    s.start(300);
    assert!(s.started());
    assert_eq!(s.elapsed(300), 300);
    assert_eq!(s.elapsed(500), 500);
}

#[test]
fn stop_while_stopped_changes_nothing() {
    let mut s = Stopwatch::new(None, 123, 200);
    s.stop(300);
    assert!(!s.started());
    assert_eq!(s.elapsed(300), 123);
}

#[test]
fn toggle_flips_running_state_and_keeps_elapsed() {
    let mut s = Stopwatch::new(Some(0), 0, 0);
    s.toggle(100);
    assert!(!s.started());
    assert_eq!(s.elapsed(100), 100);
    s.toggle(500);
    assert!(s.started());
    assert_eq!(s.elapsed(500), 100);
    assert_eq!(s.elapsed(800), 400);
}

#[test]
fn elapsed_is_monotone_across_a_mixed_run() {
    let mut s = Stopwatch::new(Some(0), 0, 0);
    let mut last: u64 = 0;
    let e1 = s.elapsed(50);
    assert!(e1 >= last);
    last = e1;
    s.stop(100);
    let e2 = s.elapsed(150);
    assert!(e2 >= last);
    last = e2;
    s.start(200);
    let e3 = s.elapsed(700);
    assert!(e3 >= last);
    last = e3;
    s.toggle(900);
    let e4 = s.elapsed(2000);
    assert!(e4 >= last);
    // total equals the sum of the running spans: [0,100] and [200,900]
    assert_eq!(e4, 100 + 700);
}

#[test]
fn lap_marks_are_debounced() {
    let mut s = Stopwatch::new(Some(0), 0, 0);
    s.record_lap(0);
    s.record_lap(50);
    s.record_lap(150);
    assert_eq!(s.recorded_laps, vec![0, 150]);
}

#[test]
fn lap_mark_records_current_elapsed() {
    let mut s = Stopwatch::new(Some(0), 0, 0);
    s.stop(500);
    s.record_lap(700);
    s.start(1000);
    s.record_lap(1250);
    assert_eq!(s.recorded_laps, vec![500, 750]);
}

#[test]
fn stopwatch_ui_update_drives_accumulator() {
    let mut ui = StopwatchUI::new(0);
    ui.update(Command::Pause, 300);
    assert!(!ui.stopwatch.started());
    ui.update(Command::Resume, 500);
    assert!(ui.stopwatch.started());
    ui.update(Command::Toggle, 600);
    assert!(!ui.stopwatch.started());
    assert_eq!(ui.stopwatch.elapsed(600), 400);
    // Enter toggles (here: resumes) and records the current elapsed.
    ui.update(Command::Enter, 900);
    assert!(ui.stopwatch.started());
    assert_eq!(ui.stopwatch.recorded_laps, vec![400]);
    ui.update(Command::Quit, 950);
    assert_eq!(ui.stopwatch.elapsed(950), 450);
}

#[test]
fn enter_toggles_and_debounces_marks() {
    let mut ui = StopwatchUI::new(0);
    ui.update(Command::Enter, 1000);
    assert!(!ui.stopwatch.started());
    assert_eq!(ui.stopwatch.recorded_laps, vec![1000]);
    // Within the debounce window: the toggle happens, the mark is
    // dropped.
    ui.update(Command::Enter, 1050);
    assert!(ui.stopwatch.started());
    assert_eq!(ui.stopwatch.recorded_laps, vec![1000]);
    ui.update(Command::Enter, 1200);
    assert!(!ui.stopwatch.started());
    assert_eq!(ui.stopwatch.recorded_laps, vec![1000, 1150]);
}

#[test]
fn stopwatch_ui_show_lists_laps() {
    let mut ui = StopwatchUI::new(0);
    // Each Enter records the elapsed at that moment and pauses;
    // resume in between to keep the clock counting.
    ui.update(Command::Enter, 61_000);
    ui.update(Command::Resume, 61_000);
    ui.update(Command::Enter, 122_000);
    let frame = ui.show(122_000);
    assert_eq!(frame.lines.len(), 5);
    assert_eq!(frame.lines[0], "Stopwatch");
    assert_eq!(frame.lines[1], "02:02");
    assert_eq!(
        frame.lines[2],
        "[Q]: quit, [Space]: pause/resume, [Enter]: record lap"
    );
    assert_eq!(frame.lines[3], "");
    assert_eq!(frame.lines[4], "Lap 1: 01:01\nLap 2: 02:02\n");
    assert!(!frame.running);
}
