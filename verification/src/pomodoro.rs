//! Pomodoro engine: the work/break phase rotation automaton, its
//! configuration, and the command-driven controller with its skip
//! confirmation sub-state. Everything here is a total, verified
//! transition on plain millisecond values.

use vstd::prelude::*;

use crate::alert::{alert_transition, Alert, Alerter};
use crate::format::{format_duration, spec_decimal, spec_format_duration, u64_to_string};
use crate::frame::Frame;
use crate::input::Command;
use crate::stopwatch::Stopwatch;

verus! {

/// The activity currently being timed.
#[derive(Debug, Clone, Copy, PartialEq, Eq, Structural)]
pub enum Mode {
    Work,
    Break,
    LongBreak,
}

/// Phase lengths in milliseconds; immutable for the lifetime of a
/// controller.
#[derive(Debug, Clone, Copy, PartialEq, Eq, Structural)]
pub struct PomodoroConfig {
    pub work_time: u64,
    pub break_time: u64,
    pub long_break: u64,
}

pub const SHORT_WORK_MS: u64 = 25 * 60 * 1000;

pub const SHORT_BREAK_MS: u64 = 5 * 60 * 1000;

pub const SHORT_LONG_BREAK_MS: u64 = 10 * 60 * 1000;

pub const LONG_WORK_MS: u64 = 55 * 60 * 1000;

pub const LONG_BREAK_MS: u64 = 10 * 60 * 1000;

pub const LONG_LONG_BREAK_MS: u64 = 20 * 60 * 1000;

impl PomodoroConfig {
    /// The target duration of the given phase.
    pub open spec fn current_target_spec(self, mode: Mode) -> u64 {
        match mode {
            Mode::Work => self.work_time,
            Mode::Break => self.break_time,
            Mode::LongBreak => self.long_break,
        }
    }

    pub fn new(work_time: u64, break_time: u64, long_break: u64) -> (r: Self)
        ensures
            r == (PomodoroConfig { work_time, break_time, long_break }),
    {
        PomodoroConfig { work_time, break_time, long_break }
    }

    /// The short preset: 25 minute work, 5 minute break, 10 minute
    /// long break.
    pub fn short() -> (r: Self)
        ensures
            r == (PomodoroConfig {
                work_time: SHORT_WORK_MS,
                break_time: SHORT_BREAK_MS,
                long_break: SHORT_LONG_BREAK_MS,
            }),
    {
        PomodoroConfig {
            work_time: SHORT_WORK_MS,
            break_time: SHORT_BREAK_MS,
            long_break: SHORT_LONG_BREAK_MS,
        }
    }

    /// The long preset: 55 minute work, 10 minute break, 20 minute
    /// long break.
    pub fn long() -> (r: Self)
        ensures
            r == (PomodoroConfig {
                work_time: LONG_WORK_MS,
                break_time: LONG_BREAK_MS,
                long_break: LONG_LONG_BREAK_MS,
            }),
    {
        PomodoroConfig {
            work_time: LONG_WORK_MS,
            break_time: LONG_BREAK_MS,
            long_break: LONG_LONG_BREAK_MS,
        }
    }

    pub fn current_target(&self, mode: Mode) -> (r: u64)
        ensures
            r == self.current_target_spec(mode),
    {
        match mode {
            Mode::Work => self.work_time,
            Mode::Break => self.break_time,
            Mode::LongBreak => self.long_break,
        }
    }
}

impl Default for PomodoroConfig {
    /// Defaults to the short preset.
    fn default() -> (r: Self)
        ensures
            r == (PomodoroConfig {
                work_time: SHORT_WORK_MS,
                break_time: SHORT_BREAK_MS,
                long_break: SHORT_LONG_BREAK_MS,
            }),
    {
        PomodoroConfig::short()
    }
}

/// One point of the phase rotation: the current phase, the 1-based
/// round counter, and the accumulated (work, break) totals in
/// milliseconds.
#[derive(Debug, Clone, Copy)]
pub struct Session {
    pub mode: Mode,
    pub round: u32,
    pub elapsed_time: (u64, u64),
}

impl Session {
    /// The starting point: round 1, in the work phase, nothing
    /// accumulated.
    pub open spec fn initial_spec() -> Session {
        Session { mode: Mode::Work, round: 1, elapsed_time: (0, 0) }
    }

    /// The accumulated totals and the round counter stay within
    /// `u64`/`u32` when advancing by `duration`.
    pub open spec fn can_advance(self, duration: u64) -> bool {
        &&& self.elapsed_time.0 + duration <= u64::MAX
        &&& self.elapsed_time.1 + duration <= u64::MAX
        &&& self.round < u32::MAX
    }

    /// The rotation table. A work phase ends in a long break exactly
    /// when the round is a multiple of four, else in a short break;
    /// either break ends in a work phase and bumps the round. Work
    /// durations accumulate into the first total, break durations
    /// into the second.
    pub open spec fn advance_spec(self, duration: u64) -> Session {
        match self.mode {
            Mode::Work => Session {
                mode: if self.round % 4 == 0 {
                    Mode::LongBreak
                } else {
                    Mode::Break
                },
                round: self.round,
                elapsed_time: ((self.elapsed_time.0 + duration) as u64, self.elapsed_time.1),
            },
            Mode::Break | Mode::LongBreak => Session {
                mode: Mode::Work,
                round: (self.round + 1) as u32,
                elapsed_time: (self.elapsed_time.0, (self.elapsed_time.1 + duration) as u64),
            },
        }
    }

    /// Pure phase transition: commits `duration` to the total of the
    /// phase that ends and returns the next session point.
    pub fn advance(self, duration: u64) -> (r: Self)
        requires
            self.can_advance(duration),
        ensures
            r == self.advance_spec(duration),
    {
        match self.mode {
            Mode::Work => Session {
                mode: if self.round % 4 == 0 {
                    Mode::LongBreak
                } else {
                    Mode::Break
                },
                round: self.round,
                elapsed_time: (self.elapsed_time.0 + duration, self.elapsed_time.1),
            },
            Mode::Break | Mode::LongBreak => Session {
                mode: Mode::Work,
                round: self.round + 1,
                elapsed_time: (self.elapsed_time.0, self.elapsed_time.1 + duration),
            },
        }
    }

    /// Previews the upcoming session point without committing any
    /// elapsed time.
    pub fn next(&self) -> (r: Self)
        requires
            self.can_advance(0),
        ensures
            r == self.advance_spec(0),
    {
        self.advance(0)
    }
}

impl Default for Session {
    fn default() -> (r: Self)
        ensures
            r == Session::initial_spec(),
    {
        Session { mode: Mode::Work, round: 1, elapsed_time: (0, 0) }
    }
}

/// Rotation law: from the start of round 1, seven advances by any
/// fixed duration pass through Break, Work, Break, Work, Break, Work,
/// LongBreak with rounds 1, 2, 2, 3, 3, 4, 4, and the eighth advance
/// reaches Work in round 5.
pub proof fn lemma_phase_rotation(d: u64)
    requires
        8 * d <= u64::MAX,
    ensures
        ({
            let s0 = Session::initial_spec();
            let s1 = s0.advance_spec(d);
            let s2 = s1.advance_spec(d);
            let s3 = s2.advance_spec(d);
            let s4 = s3.advance_spec(d);
            let s5 = s4.advance_spec(d);
            let s6 = s5.advance_spec(d);
            let s7 = s6.advance_spec(d);
            let s8 = s7.advance_spec(d);
            &&& s1.mode == Mode::Break && s1.round == 1
            &&& s2.mode == Mode::Work && s2.round == 2
            &&& s3.mode == Mode::Break && s3.round == 2
            &&& s4.mode == Mode::Work && s4.round == 3
            &&& s5.mode == Mode::Break && s5.round == 3
            &&& s6.mode == Mode::Work && s6.round == 4
            &&& s7.mode == Mode::LongBreak && s7.round == 4
            &&& s8.mode == Mode::Work && s8.round == 5
        }),
{
}

/// Text of the title shown while a phase is running.
pub open spec fn spec_default_title(mode: Mode) -> Seq<char> {
    match mode {
        Mode::Work => "Pomodoro (Work)"@,
        Mode::Break => "Pomodoro (Break)"@,
        Mode::LongBreak => "Pomodoro (Long Break)"@,
    }
}

/// Text of the title shown once the target is reached, naming the
/// phase that comes next.
pub open spec fn spec_end_title(next_mode: Mode) -> Seq<char> {
    match next_mode {
        Mode::Work => "Break has ended! Start work?"@,
        Mode::Break => "Work has ended! Start break?"@,
        Mode::LongBreak => "Work has ended! Start a long break"@,
    }
}

/// Notification title for reaching the target.
pub open spec fn spec_alert_title(next_mode: Mode) -> Seq<char> {
    match next_mode {
        Mode::Work => "Your break ended!"@,
        Mode::Break => "Pomodoro ended!"@,
        Mode::LongBreak => "Pomodoro 4 sessions complete!"@,
    }
}

/// Notification body for reaching the target.
pub open spec fn spec_alert_body(next_mode: Mode) -> Seq<char> {
    match next_mode {
        Mode::Work => "Time for some work"@,
        Mode::Break => "Time for a short break"@,
        Mode::LongBreak => "Time for a long break"@,
    }
}

/// Text of the confirmation prompt while a skip is pending, naming
/// the phase a confirmed skip would start.
pub open spec fn spec_skip_prompt(next_mode: Mode) -> Seq<char> {
    match next_mode {
        Mode::Work => "skip to work?"@,
        Mode::Break => "skip to break?"@,
        Mode::LongBreak => "skip to long break?"@,
    }
}

/// Title shown while a phase is running.
pub fn default_title(mode: Mode) -> (r: &'static str)
    ensures
        r@ == spec_default_title(mode),
{
    match mode {
        Mode::Work => "Pomodoro (Work)",
        Mode::Break => "Pomodoro (Break)",
        Mode::LongBreak => "Pomodoro (Long Break)",
    }
}

/// Title shown once the target is reached, naming the phase that
/// comes next.
pub fn end_title(next_mode: Mode) -> (r: &'static str)
    ensures
        r@ == spec_end_title(next_mode),
{
    match next_mode {
        Mode::Work => "Break has ended! Start work?",
        Mode::Break => "Work has ended! Start break?",
        Mode::LongBreak => "Work has ended! Start a long break",
    }
}

/// Notification texts for reaching the target, naming the phase that
/// comes next.
pub fn alert_message(next_mode: Mode) -> (r: (&'static str, &'static str))
    ensures
        r.0@ == spec_alert_title(next_mode),
        r.1@ == spec_alert_body(next_mode),
{
    match next_mode {
        Mode::Work => ("Your break ended!", "Time for some work"),
        Mode::Break => ("Pomodoro ended!", "Time for a short break"),
        Mode::LongBreak => ("Pomodoro 4 sessions complete!", "Time for a long break"),
    }
}

pub const POMODORO_CONTROLS: &'static str = "[Q]: quit, [Shift S]: Skip, [Space]: pause/resume";

pub const ENDING_CONTROLS: &'static str =
    "[Q]: quit, [Shift S]: Skip, [Space]: pause/resume, [Enter]: Next";

pub const SKIP_CONTROLS: &'static str = "[Enter]: Yes, [Q/N]: No";

/// Prompt shown while a skip is pending, naming the phase a confirmed
/// skip would start.
pub fn skip_prompt(next_mode: Mode) -> (r: &'static str)
    ensures
        r@ == spec_skip_prompt(next_mode),
{
    match next_mode {
        Mode::Work => "skip to work?",
        Mode::Break => "skip to break?",
        Mode::LongBreak => "skip to long break?",
    }
}

/// The controller's mode state: either timing the current phase, or
/// waiting for the user to confirm skipping it, with the elapsed time
/// frozen at the moment the skip was requested.
#[derive(Debug, Clone)]
pub enum UIMode {
    Skip(u64),
    Running(Stopwatch),
}

/// Well-formedness of the mode state at clock reading `now`.
pub open spec fn mode_inv(m: UIMode, now: int) -> bool {
    match m {
        UIMode::Skip(pending) => pending <= now,
        UIMode::Running(s) => s.inv(now),
    }
}

/// The elapsed time the mode state stands for at clock reading `now`:
/// the frozen value while a skip is pending, the live accumulator
/// reading otherwise.
pub open spec fn mode_elapsed(m: UIMode, now: int) -> int {
    match m {
        UIMode::Skip(pending) => pending as int,
        UIMode::Running(s) => s.elapsed_at(now),
    }
}

/// A freshly constructed running accumulator: started at `now_ms`,
/// nothing accumulated, no laps.
pub open spec fn is_fresh_running(m: UIMode, now_ms: u64) -> bool {
    match m {
        UIMode::Running(s) => {
            &&& s.start_time == Some(now_ms)
            &&& s.elapsed_before == 0
            &&& s.recorded_laps@ == Seq::<u64>::empty()
            &&& s.last_lap_at is None
        },
        UIMode::Skip(_) => false,
    }
}

/// A running accumulator resumed from a cancelled skip: started at
/// `now_ms` carrying exactly the frozen `pending` milliseconds, so no
/// time is lost.
pub open spec fn is_resumed_running(m: UIMode, pending: u64, now_ms: u64) -> bool {
    match m {
        UIMode::Running(s) => {
            &&& s.start_time == Some(now_ms)
            &&& s.elapsed_before == pending
            &&& s.elapsed_at(now_ms as int) == pending
        },
        UIMode::Skip(_) => false,
    }
}

/// The full transition `pomodoro_update` makes when `command` arrives
/// at clock reading `now_ms`.
pub open spec fn pomodoro_step(
    command: Command,
    config: PomodoroConfig,
    pre_alert: Alerter,
    pre_mode: UIMode,
    pre_session: Session,
    post_alert: Alerter,
    post_mode: UIMode,
    post_session: Session,
    now_ms: u64,
) -> bool {
    match pre_mode {
        UIMode::Skip(pending) => match command {
            Command::Quit | Command::No => {
                &&& post_session == pre_session
                &&& post_alert == pre_alert
                &&& is_resumed_running(post_mode, pending, now_ms)
            },
            Command::Enter | Command::Yes => {
                &&& post_session == pre_session.advance_spec(pending)
                &&& !post_alert.fired
                &&& is_fresh_running(post_mode, now_ms)
            },
            _ => {
                &&& post_session == pre_session
                &&& post_alert == pre_alert
                &&& post_mode == pre_mode
            },
        },
        UIMode::Running(s) => {
            let e = s.elapsed_at(now_ms as int) as u64;
            let target = config.current_target_spec(pre_session.mode);
            match command {
                Command::Enter => if e >= target {
                    &&& post_session == pre_session.advance_spec(e)
                    &&& !post_alert.fired
                    &&& is_fresh_running(post_mode, now_ms)
                } else {
                    &&& post_session == pre_session
                    &&& post_alert == pre_alert
                    &&& post_mode == pre_mode
                },
                Command::Pause => {
                    &&& post_session == pre_session
                    &&& post_alert == pre_alert
                    &&& post_mode == UIMode::Running(s.stop_spec(now_ms))
                },
                Command::Resume => {
                    &&& post_session == pre_session
                    &&& post_alert == pre_alert
                    &&& post_mode == UIMode::Running(s.start_spec(now_ms))
                },
                Command::Toggle => {
                    &&& post_session == pre_session
                    &&& post_alert == pre_alert
                    &&& post_mode == UIMode::Running(s.toggle_spec(now_ms))
                },
                Command::Skip => {
                    &&& post_session == pre_session
                    &&& post_alert == pre_alert
                    &&& post_mode == UIMode::Skip(e)
                },
                _ => {
                    &&& post_session == pre_session
                    &&& post_alert == pre_alert
                    &&& post_mode == pre_mode
                },
            }
        },
    }
}

/// Applies one command to the pomodoro state machine.
///
/// While a skip is pending, confirmation commits the frozen elapsed
/// time to the rotation and starts a fresh phase; cancellation resumes
/// a running accumulator carrying exactly the frozen time. While
/// running, pause/resume/toggle drive the accumulator, a skip request
/// freezes the current elapsed time, and once the target is reached,
/// enter commits the elapsed time and starts the next phase. Every
/// accepted phase transition re-arms the alert latch.
pub fn pomodoro_update(
    command: Command,
    config: &PomodoroConfig,
    alerter: &mut Alerter,
    ui_mode: &mut UIMode,
    session: &mut Session,
    now_ms: u64,
)
    requires
        mode_inv(*old(ui_mode), now_ms as int),
        old(session).can_advance(now_ms),
    ensures
        pomodoro_step(
            command,
            *config,
            *old(alerter),
            *old(ui_mode),
            *old(session),
            *final(alerter),
            *final(ui_mode),
            *final(session),
            now_ms,
        ),
        mode_inv(*final(ui_mode), now_ms as int),
{
    match ui_mode {
        UIMode::Skip(pending) => {
            let frozen: u64 = *pending;
            match command {
                Command::Quit | Command::No => {
                    *ui_mode = UIMode::Running(Stopwatch::new(Some(now_ms), frozen, now_ms));
                },
                Command::Enter | Command::Yes => {
                    alerter.reset();
                    *session = session.advance(frozen);
                    *ui_mode = UIMode::Running(Stopwatch::new(Some(now_ms), 0, now_ms));
                },
                _ => {},
            }
        },
        UIMode::Running(stopwatch) => {
            let elapsed = stopwatch.elapsed(now_ms);
            let target = config.current_target(session.mode);
            match command {
                Command::Enter => {
                    if elapsed >= target {
                        alerter.reset();
                        *session = session.advance(elapsed);
                        *ui_mode = UIMode::Running(Stopwatch::new(Some(now_ms), 0, now_ms));
                    }
                },
                Command::Pause => stopwatch.stop(now_ms),
                Command::Resume => stopwatch.start(now_ms),
                Command::Toggle => stopwatch.toggle(now_ms),
                Command::Skip => {
                    *ui_mode = UIMode::Skip(elapsed);
                },
                _ => {},
            }
        },
    }
}

/// Skip-cancel law: requesting a skip and then declining it leaves a
/// running accumulator whose elapsed time at the moment of the
/// cancellation equals the elapsed time frozen when the skip was
/// requested — no time is lost.
pub proof fn lemma_skip_cancel_preserves_elapsed(
    config: PomodoroConfig,
    a0: Alerter,
    m0: UIMode,
    s0: Session,
    a1: Alerter,
    m1: UIMode,
    s1: Session,
    a2: Alerter,
    m2: UIMode,
    s2: Session,
    now1: u64,
    now2: u64,
)
    requires
        m0 is Running,
        mode_inv(m0, now1 as int),
        pomodoro_step(Command::Skip, config, a0, m0, s0, a1, m1, s1, now1),
        pomodoro_step(Command::No, config, a1, m1, s1, a2, m2, s2, now2),
    ensures
        m2 is Running,
        mode_elapsed(m2, now2 as int) == mode_elapsed(m0, now1 as int),
        s2 == s0,
        a2 == a0,
{
}

/// Text of the round counter line.
pub open spec fn spec_round_line(round: int) -> Seq<char> {
    "Session: "@ + spec_decimal(round)
}

/// What a rendered pomodoro frame holds, given the states of the
/// alert latch before and after rendering. While a skip is pending, a
/// confirmation prompt names the phase a confirmed skip would start.
/// While running short of the target, the remaining time is shown.
/// Once the target is reached, the overrun is shown, the upcoming
/// phase is announced, and the alert latch is asked for its one-shot
/// notification.
pub open spec fn pomodoro_frame(
    config: PomodoroConfig,
    ui_mode: UIMode,
    session: Session,
    pre_alert: Alerter,
    post_alert: Alerter,
    frame: Frame,
    alert: Option<Alert>,
    now_ms: u64,
) -> bool {
    let next_mode = session.advance_spec(0).mode;
    let target = config.current_target_spec(session.mode);
    match ui_mode {
        UIMode::Skip(pending) => {
            &&& frame.lines@.len() == 3
            &&& frame.lines@[0]@ == spec_skip_prompt(next_mode)
            &&& frame.lines@[1]@ == spec_round_line(session.round as int)
            &&& frame.lines@[2]@ == SKIP_CONTROLS@
            &&& !frame.running
            &&& alert is None
            &&& post_alert == pre_alert
        },
        UIMode::Running(s) => {
            let e = s.elapsed_at(now_ms as int) as u64;
            if e < target {
                &&& frame.lines@.len() == 4
                &&& frame.lines@[0]@ == spec_default_title(session.mode)
                &&& frame.lines@[1]@ == spec_format_duration(target - e)
                &&& frame.lines@[2]@ == POMODORO_CONTROLS@
                &&& frame.lines@[3]@ == spec_round_line(session.round as int)
                &&& frame.running == s.started_spec()
                &&& alert is None
                &&& post_alert == pre_alert
            } else {
                &&& frame.lines@.len() == 5
                &&& frame.lines@[0]@ == spec_end_title(next_mode)
                &&& frame.lines@[1]@ == seq!['+'] + spec_format_duration(e - target)
                &&& frame.lines@[2]@ == ENDING_CONTROLS@
                &&& frame.lines@[3]@ == spec_round_line(session.round as int)
                &&& frame.lines@[4]@ == spec_alert_body(next_mode)
                &&& frame.running == s.started_spec()
                &&& alert_transition(pre_alert, post_alert, alert is Some)
                &&& match alert {
                    Some(a) => a.title@ == spec_alert_title(next_mode) && a.message@
                        == spec_alert_body(next_mode),
                    None => pre_alert.fired,
                }
            }
        },
    }
}

/// Renders one pomodoro frame; see `pomodoro_frame` for what it
/// holds.
pub fn pomodoro_show(
    config: &PomodoroConfig,
    ui_mode: &UIMode,
    session: &Session,
    alerter: &mut Alerter,
    now_ms: u64,
) -> (r: (Frame, Option<Alert>))
    requires
        mode_inv(*ui_mode, now_ms as int),
        session.round < u32::MAX,
    ensures
        pomodoro_frame(
            *config,
            *ui_mode,
            *session,
            *old(alerter),
            *final(alerter),
            r.0,
            r.1,
            now_ms,
        ),
{
    let target = config.current_target(session.mode);
    let mut round_line = String::from_str("Session: ");
    let round_text = u64_to_string(session.round as u64);
    round_line.append(round_text.as_str());
    let next_mode = session.next().mode;
    let mut lines: Vec<String> = Vec::new();
    match ui_mode {
        UIMode::Skip(_) => {
            lines.push(String::from_str(skip_prompt(next_mode)));
            lines.push(round_line);
            lines.push(String::from_str(SKIP_CONTROLS));
            (Frame { lines, running: false }, None)
        },
        UIMode::Running(stopwatch) => {
            let elapsed = stopwatch.elapsed(now_ms);
            let is_running = stopwatch.started();
            if elapsed < target {
                lines.push(String::from_str(default_title(session.mode)));
                lines.push(format_duration(target - elapsed));
                lines.push(String::from_str(POMODORO_CONTROLS));
                lines.push(round_line);
                (Frame { lines, running: is_running }, None)
            } else {
                let (title, message) = alert_message(next_mode);
                let alert = alerter.alert_once(title, message);
                lines.push(String::from_str(end_title(next_mode)));
                let mut overrun = String::from_str("+");
                let excess = format_duration(elapsed - target);
                overrun.append(excess.as_str());
                proof {
                    reveal_strlit("+");
                    assert(overrun@ =~= seq!['+'] + spec_format_duration(
                        (stopwatch.elapsed_at(now_ms as int) - target) as int,
                    ));
                }
                lines.push(overrun);
                lines.push(String::from_str(ENDING_CONTROLS));
                lines.push(round_line);
                lines.push(String::from_str(message));
                (Frame { lines, running: is_running }, alert)
            }
        },
    }
}

/// The closing summary: total work time and total break time, as
/// reported when the controller quits.
pub fn summary(session: &Session) -> (r: String)
    ensures
        r@ == "You have spent "@ + spec_format_duration(session.elapsed_time.0 as int)
            + " working and "@ + spec_format_duration(session.elapsed_time.1 as int)
            + " on break. Well done!"@,
{
    let mut out = String::from_str("You have spent ");
    let work_text = format_duration(session.elapsed_time.0);
    out.append(work_text.as_str());
    out.append(" working and ");
    let rest_text = format_duration(session.elapsed_time.1);
    out.append(rest_text.as_str());
    out.append(" on break. Well done!");
    out
}

/// The pomodoro controller: configuration, rotation state, mode
/// state, and the one-shot alert latch.
#[derive(Debug, Clone)]
pub struct PomodoroUI {
    pub config: PomodoroConfig,
    pub session: Session,
    pub ui_mode: UIMode,
    pub alerter: Alerter,
}

impl PomodoroUI {
    /// Well-formedness at clock reading `now`: the mode state is
    /// well-formed and one more full clock reading still fits into
    /// the session totals.
    pub open spec fn inv(self, now: int) -> bool {
        &&& mode_inv(self.ui_mode, now)
        &&& self.session.elapsed_time.0 + now <= u64::MAX
        &&& self.session.elapsed_time.1 + now <= u64::MAX
        &&& self.session.round < u32::MAX
    }

    /// A fresh controller at round 1 in the work phase, its
    /// accumulator already running from `now_ms`.
    pub fn new(config: PomodoroConfig, now_ms: u64) -> (r: Self)
        ensures
            r.config == config,
            r.session == Session::initial_spec(),
            is_fresh_running(r.ui_mode, now_ms),
            !r.alerter.fired,
            r.inv(now_ms as int),
    {
        PomodoroUI {
            config,
            session: Session::default(),
            ui_mode: UIMode::Running(Stopwatch::new(Some(now_ms), 0, now_ms)),
            alerter: Alerter::new(),
        }
    }

    /// Applies one command at clock reading `now_ms`.
    pub fn update(&mut self, command: Command, now_ms: u64)
        requires
            old(self).inv(now_ms as int),
        ensures
            pomodoro_step(
                command,
                old(self).config,
                old(self).alerter,
                old(self).ui_mode,
                old(self).session,
                final(self).alerter,
                final(self).ui_mode,
                final(self).session,
                now_ms,
            ),
            final(self).config == old(self).config,
            mode_inv(final(self).ui_mode, now_ms as int),
    {
        let config = self.config;
        pomodoro_update(
            command,
            &config,
            &mut self.alerter,
            &mut self.ui_mode,
            &mut self.session,
            now_ms,
        );
    }

    /// Renders the current frame; see `pomodoro_show`.
    pub fn show(&mut self, now_ms: u64) -> (r: (Frame, Option<Alert>))
        requires
            old(self).inv(now_ms as int),
        ensures
            final(self).config == old(self).config,
            final(self).session == old(self).session,
            final(self).ui_mode == old(self).ui_mode,
            final(self).inv(now_ms as int),
            pomodoro_frame(
                old(self).config,
                old(self).ui_mode,
                old(self).session,
                old(self).alerter,
                final(self).alerter,
                r.0,
                r.1,
                now_ms,
            ),
            r.1 is None ==> final(self).alerter == old(self).alerter,
            r.1 is Some ==> !old(self).alerter.fired && final(self).alerter.fired,
    {
        let config = self.config;
        let session = self.session;
        pomodoro_show(&config, &self.ui_mode, &session, &mut self.alerter, now_ms)
    }

    /// Commits the elapsed time of the final partial phase to the
    /// rotation, as done once when the controller quits, and returns
    /// the resulting session point.
    pub fn quit(&self, now_ms: u64) -> (r: Session)
        requires
            self.inv(now_ms as int),
        ensures
            r == self.session.advance_spec(mode_elapsed(self.ui_mode, now_ms as int) as u64),
    {
        match &self.ui_mode {
            UIMode::Skip(pending) => self.session.advance(*pending),
            UIMode::Running(stopwatch) => self.session.advance(stopwatch.elapsed(now_ms)),
        }
    }
}

} // verus!
