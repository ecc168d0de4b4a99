//! Single-target timer controller: counts toward a fixed target,
//! shows the remaining time, then the overrun, and fires a one-shot
//! alert at the moment the target is crossed.

use vstd::prelude::*;

use crate::alert::{alert_transition, Alert, Alerter};
use crate::format::{format_duration, spec_format_duration};
use crate::frame::Frame;
use crate::input::Command;
use crate::stopwatch::Stopwatch;

verus! {

pub const TIMER_CONTROLS: &'static str = "[Q]: quit, [Space]: pause/resume";

/// Applies one command to a timer's accumulator: pause stops it,
/// resume starts it, toggle and enter flip it; every other command is
/// ignored.
pub fn timer_update(command: Command, stopwatch: &mut Stopwatch, now_ms: u64)
    requires
        old(stopwatch).inv(now_ms as int),
    ensures
        final(stopwatch).inv(now_ms as int),
        final(stopwatch).elapsed_at(now_ms as int) == old(stopwatch).elapsed_at(now_ms as int),
        match command {
            Command::Pause => *final(stopwatch) == old(stopwatch).stop_spec(now_ms),
            Command::Resume => *final(stopwatch) == old(stopwatch).start_spec(now_ms),
            Command::Toggle | Command::Enter => *final(stopwatch) == old(stopwatch).toggle_spec(
                now_ms,
            ),
            _ => *final(stopwatch) == *old(stopwatch),
        },
{
    match command {
        Command::Pause => stopwatch.stop(now_ms),
        Command::Resume => stopwatch.start(now_ms),
        Command::Toggle | Command::Enter => stopwatch.toggle(now_ms),
        _ => {},
    }
}

/// What a rendered timer frame holds, given the states of the alert
/// latch before and after rendering. While short of the target the
/// remaining time is shown; once the target is reached the overrun is
/// shown and the latch is asked for its one-shot notification.
pub open spec fn timer_frame(
    elapsed: u64,
    target: u64,
    is_running: bool,
    pre_alert: Alerter,
    post_alert: Alerter,
    finish_text: Seq<char>,
    frame: Frame,
    alert: Option<Alert>,
) -> bool {
    &&& frame.running == is_running
    &&& frame.lines@.len() == 4
    &&& frame.lines@[2]@ == "ETA: "@ + finish_text
    &&& frame.lines@[3]@ == TIMER_CONTROLS@
    &&& elapsed < target ==> {
        &&& frame.lines@[0]@ == "Timer"@
        &&& frame.lines@[1]@ == spec_format_duration(target - elapsed)
        &&& alert is None
        &&& post_alert == pre_alert
    }
    &&& elapsed >= target ==> {
        &&& frame.lines@[0]@ == "Timer has ended"@
        &&& frame.lines@[1]@ == seq!['+'] + spec_format_duration(elapsed - target)
        &&& alert_transition(pre_alert, post_alert, alert is Some)
        &&& match alert {
            Some(a) => a.title@ == "The timer has ended!"@ && a.message@ == "Your Timer of "@
                + spec_format_duration(target as int) + " has ended"@,
            None => pre_alert.fired,
        }
    }
}

/// Renders one timer frame; see `timer_frame` for what it holds. The
/// caller-supplied `finish_text` is the pre-rendered wall-clock time
/// at which the target is due.
pub fn timer_show(
    elapsed: u64,
    target: u64,
    is_running: bool,
    alerter: &mut Alerter,
    finish_text: &str,
) -> (r: (Frame, Option<Alert>))
    ensures
        timer_frame(
            elapsed,
            target,
            is_running,
            *old(alerter),
            *final(alerter),
            finish_text@,
            r.0,
            r.1,
        ),
{
    let mut eta = String::from_str("ETA: ");
    eta.append(finish_text);
    let mut lines: Vec<String> = Vec::new();
    let alert: Option<Alert>;
    if elapsed < target {
        lines.push(String::from_str("Timer"));
        lines.push(format_duration(target - elapsed));
        alert = None;
    } else {
        let mut message = String::from_str("Your Timer of ");
        let target_text = format_duration(target);
        message.append(target_text.as_str());
        message.append(" has ended");
        alert = alerter.alert_once("The timer has ended!", message.as_str());
        lines.push(String::from_str("Timer has ended"));
        let mut overrun = String::from_str("+");
        let excess = format_duration(elapsed - target);
        overrun.append(excess.as_str());
        proof {
            reveal_strlit("+");
            assert(overrun@ =~= seq!['+'] + spec_format_duration((elapsed - target) as int));
        }
        lines.push(overrun);
    }
    lines.push(eta);
    lines.push(String::from_str(TIMER_CONTROLS));
    (Frame { lines, running: is_running }, alert)
}

/// The timer controller: an accumulator, the fixed target, the alert
/// latch, and the precomputed clock reading at which the target is
/// due.
#[derive(Debug, Clone)]
pub struct TimerUI {
    pub stopwatch: Stopwatch,
    pub target: u64,
    pub alerter: Alerter,
    pub finish_at: u64,
}

impl TimerUI {
    /// Well-formedness at clock reading `now`.
    pub open spec fn inv(self, now: int) -> bool {
        self.stopwatch.inv(now)
    }

    /// A fresh timer counting toward `target` milliseconds, its
    /// accumulator already running from `now_ms`; the target is due
    /// at `now_ms + target`.
    pub fn new(target: u64, now_ms: u64) -> (r: Self)
        requires
            now_ms + target <= u64::MAX,
        ensures
            r.target == target,
            r.finish_at == now_ms + target,
            !r.alerter.fired,
            r.stopwatch.elapsed_at(now_ms as int) == 0,
            r.stopwatch.started_spec(),
            r.stopwatch.recorded_laps@ == Seq::<u64>::empty(),
            r.stopwatch.last_lap_at is None,
            r.inv(now_ms as int),
    {
        TimerUI {
            stopwatch: Stopwatch::new(Some(now_ms), 0, now_ms),
            target,
            alerter: Alerter::new(),
            finish_at: now_ms + target,
        }
    }

    /// Renders the current frame; see `timer_show`.
    pub fn show(&mut self, now_ms: u64, finish_text: &str) -> (r: (Frame, Option<Alert>))
        requires
            old(self).inv(now_ms as int),
        ensures
            final(self).inv(now_ms as int),
            final(self).stopwatch == old(self).stopwatch,
            final(self).target == old(self).target,
            final(self).finish_at == old(self).finish_at,
            timer_frame(
                old(self).stopwatch.elapsed_at(now_ms as int) as u64,
                old(self).target,
                old(self).stopwatch.started_spec(),
                old(self).alerter,
                final(self).alerter,
                finish_text@,
                r.0,
                r.1,
            ),
    {
        let elapsed = self.stopwatch.elapsed(now_ms);
        let is_running = self.stopwatch.started();
        timer_show(elapsed, self.target, is_running, &mut self.alerter, finish_text)
    }

    /// Applies one command; see `timer_update`.
    pub fn update(&mut self, command: Command, now_ms: u64)
        requires
            old(self).inv(now_ms as int),
        ensures
            final(self).inv(now_ms as int),
            final(self).target == old(self).target,
            final(self).alerter == old(self).alerter,
            final(self).finish_at == old(self).finish_at,
            final(self).stopwatch.elapsed_at(now_ms as int) == old(self).stopwatch.elapsed_at(
                now_ms as int,
            ),
            match command {
                Command::Pause => final(self).stopwatch == old(self).stopwatch.stop_spec(now_ms),
                Command::Resume => final(self).stopwatch == old(self).stopwatch.start_spec(now_ms),
                Command::Toggle | Command::Enter => final(self).stopwatch == old(
                    self,
                ).stopwatch.toggle_spec(now_ms),
                _ => final(self).stopwatch == old(self).stopwatch,
            },
    {
        timer_update(command, &mut self.stopwatch, now_ms)
    }
}

} // verus!
