//! Elapsed-time accumulator: tracks active duration across start/stop
//! toggles and records debounced lap marks. Time never comes from a
//! clock read inside this module; every operation takes the current
//! monotonic clock reading in milliseconds, so the whole component is
//! a family of total, verified transition functions.

use vstd::prelude::*;

use crate::format::{format_duration, spec_decimal, spec_format_duration, u64_to_string};
use crate::frame::Frame;
use crate::input::Command;

verus! {

/// Minimum spacing, in milliseconds, between two accepted lap marks.
/// A single physical key press may generate duplicate events; marks
/// closer than this to the previously accepted one are dropped.
pub const LAP_DEBOUNCE_MS: u64 = 100;

/// Accumulates elapsed time across pause/resume cycles.
///
/// `start_time` is `Some(t)` exactly while the accumulator is running,
/// where `t` is the clock reading at which the current running span
/// began. `elapsed_before` folds in all completed running spans.
/// `last_lap_at` is the clock reading of the most recently accepted
/// lap mark, if any.
#[derive(Debug, Clone)]
pub struct Stopwatch {
    pub start_time: Option<u64>,
    pub elapsed_before: u64,
    pub recorded_laps: Vec<u64>,
    pub last_lap_at: Option<u64>,
}

impl Stopwatch {
    /// True iff the accumulator is currently running.
    pub open spec fn started_spec(self) -> bool {
        self.start_time is Some
    }

    /// Total elapsed milliseconds as observed at clock reading `now`.
    pub open spec fn elapsed_at(self, now: int) -> int {
        match self.start_time {
            Some(t) => self.elapsed_before + (now - t),
            None => self.elapsed_before as int,
        }
    }

    /// Well-formedness at clock reading `now`: every stored timestamp
    /// was read from the same clock no later than `now`, and the
    /// accumulated time never exceeds the clock itself. The latter
    /// holds of every accumulator driven by one monotonic clock and
    /// keeps all arithmetic within `u64`.
    pub open spec fn inv(self, now: int) -> bool {
        &&& match self.start_time {
            Some(t) => t <= now,
            None => true,
        }
        &&& match self.last_lap_at {
            Some(t) => t <= now,
            None => true,
        }
        &&& 0 <= self.elapsed_at(now) <= now
    }

    /// The value `start` leaves behind when called at `now_ms`.
    pub open spec fn start_spec(self, now_ms: u64) -> Stopwatch {
        if self.started_spec() {
            self
        } else {
            Stopwatch { start_time: Some(now_ms), ..self }
        }
    }

    /// The value `stop` leaves behind when called at `now_ms`.
    pub open spec fn stop_spec(self, now_ms: u64) -> Stopwatch {
        if self.started_spec() {
            Stopwatch {
                start_time: None,
                elapsed_before: self.elapsed_at(now_ms as int) as u64,
                ..self
            }
        } else {
            self
        }
    }

    /// The value `toggle` leaves behind when called at `now_ms`.
    pub open spec fn toggle_spec(self, now_ms: u64) -> Stopwatch {
        if self.started_spec() {
            self.stop_spec(now_ms)
        } else {
            self.start_spec(now_ms)
        }
    }

    /// A lap mark offered at clock reading `now` is accepted iff no
    /// mark was accepted yet, or the previous one is at least
    /// `LAP_DEBOUNCE_MS` in the past.
    pub open spec fn lap_accepted(self, now: int) -> bool {
        match self.last_lap_at {
            Some(t) => now - t >= LAP_DEBOUNCE_MS,
            None => true,
        }
    }

    /// Well-formedness is stable under the clock advancing.
    pub proof fn lemma_inv_monotone(self, now1: int, now2: int)
        requires
            self.inv(now1),
            now1 <= now2,
        ensures
            self.inv(now2),
    {
    }

    /// Elapsed time never decreases as the clock advances.
    pub proof fn lemma_elapsed_monotone(self, now1: int, now2: int)
        requires
            self.inv(now1),
            now1 <= now2,
        ensures
            self.elapsed_at(now1) <= self.elapsed_at(now2),
    {
    }

    /// While running, elapsed time grows exactly at clock rate; while
    /// stopped, it stands still. Together with the transition
    /// contracts this says elapsed time equals the sum of the
    /// durations of the running spans.
    pub proof fn lemma_elapsed_rate(self, now1: int, now2: int)
        requires
            self.inv(now1),
            now1 <= now2,
        ensures
            self.started_spec() ==> self.elapsed_at(now2) == self.elapsed_at(now1) + (now2
                - now1),
            !self.started_spec() ==> self.elapsed_at(now2) == self.elapsed_at(now1),
    {
    }

    /// Builds an accumulator with the given running state and carried
    /// elapsed time, with no laps recorded yet. The carried time may
    /// not exceed what the clock allows, which keeps later arithmetic
    /// in bounds.
    pub fn new(start_time: Option<u64>, elapsed_before: u64, now_ms: u64) -> (r: Self)
        requires
            match start_time {
                Some(t) => t <= now_ms && elapsed_before <= t,
                None => elapsed_before <= now_ms,
            },
        ensures
            r.inv(now_ms as int),
            r.start_time == start_time,
            r.elapsed_before == elapsed_before,
            r.recorded_laps@ == Seq::<u64>::empty(),
            r.last_lap_at is None,
    {
        Stopwatch { start_time, elapsed_before, recorded_laps: Vec::new(), last_lap_at: None }
    }

    /// Total elapsed milliseconds at clock reading `now_ms`.
    pub fn elapsed(&self, now_ms: u64) -> (r: u64)
        requires
            self.inv(now_ms as int),
        ensures
            r == self.elapsed_at(now_ms as int),
    {
        match self.start_time {
            Some(t) => self.elapsed_before + (now_ms - t),
            None => self.elapsed_before,
        }
    }

    /// True iff currently running.
    pub fn started(&self) -> (r: bool)
        ensures
            r == self.started_spec(),
    {
        self.start_time.is_some()
    }

    /// Begins running from `now_ms`; a no-op if already running.
    /// Elapsed time as observed at `now_ms` is unchanged.
    pub fn start(&mut self, now_ms: u64)
        requires
            old(self).inv(now_ms as int),
        ensures
            final(self).inv(now_ms as int),
            final(self).started_spec(),
            final(self).elapsed_at(now_ms as int) == old(self).elapsed_at(now_ms as int),
            *final(self) == old(self).start_spec(now_ms),
            old(self).started_spec() ==> *final(self) == *old(self),
    {
        if self.start_time.is_none() {
            self.start_time = Some(now_ms);
        }
    }

    /// Folds the current running span into the accumulated total and
    /// stops; a no-op if already stopped. Elapsed time as observed at
    /// `now_ms` is unchanged.
    pub fn stop(&mut self, now_ms: u64)
        requires
            old(self).inv(now_ms as int),
        ensures
            final(self).inv(now_ms as int),
            !final(self).started_spec(),
            final(self).elapsed_at(now_ms as int) == old(self).elapsed_at(now_ms as int),
            *final(self) == old(self).stop_spec(now_ms),
            !old(self).started_spec() ==> *final(self) == *old(self),
    {
        if let Some(t) = self.start_time {
            self.elapsed_before = self.elapsed_before + (now_ms - t);
            self.start_time = None;
        }
    }

    /// Stops if running, starts if stopped. Elapsed time as observed
    /// at `now_ms` is unchanged.
    pub fn toggle(&mut self, now_ms: u64)
        requires
            old(self).inv(now_ms as int),
        ensures
            final(self).inv(now_ms as int),
            final(self).started_spec() == !old(self).started_spec(),
            final(self).elapsed_at(now_ms as int) == old(self).elapsed_at(now_ms as int),
            *final(self) == old(self).toggle_spec(now_ms),
    {
        match self.start_time {
            Some(t) => {
                self.elapsed_before = self.elapsed_before + (now_ms - t);
                self.start_time = None;
            },
            None => {
                self.start_time = Some(now_ms);
            },
        }
    }

    /// Appends the current elapsed time to the recorded laps, unless a
    /// lap was accepted less than `LAP_DEBOUNCE_MS` ago, in which case
    /// the mark is silently dropped.
    pub fn record_lap(&mut self, now_ms: u64)
        requires
            old(self).inv(now_ms as int),
        ensures
            final(self).inv(now_ms as int),
            old(self).lap_accepted(now_ms as int) ==> {
                &&& final(self).recorded_laps@ == old(self).recorded_laps@.push(
                    old(self).elapsed_at(now_ms as int) as u64,
                )
                &&& final(self).last_lap_at == Some(now_ms)
                &&& final(self).start_time == old(self).start_time
                &&& final(self).elapsed_before == old(self).elapsed_before
            },
            !old(self).lap_accepted(now_ms as int) ==> *final(self) == *old(self),
    {
        if let Some(t) = self.last_lap_at {
            if now_ms - t < LAP_DEBOUNCE_MS {
                return ;
            }
        }
        let e = self.elapsed(now_ms);
        self.recorded_laps.push(e);
        self.last_lap_at = Some(now_ms);
    }
}

/// One transition of the accumulator's running state.
#[derive(Debug, Clone, Copy, PartialEq, Eq, Structural)]
pub enum StopwatchOp {
    Start,
    Stop,
    Toggle,
}

/// The value an operation leaves behind when applied at `now_ms`.
pub open spec fn op_spec(s: Stopwatch, op: StopwatchOp, now_ms: u64) -> Stopwatch {
    match op {
        StopwatchOp::Start => s.start_spec(now_ms),
        StopwatchOp::Stop => s.stop_spec(now_ms),
        StopwatchOp::Toggle => s.toggle_spec(now_ms),
    }
}

/// The value left behind by a whole sequence of timestamped
/// operations, applied in order.
pub open spec fn run_trace(s: Stopwatch, tr: Seq<(StopwatchOp, u64)>) -> Stopwatch
    decreases tr.len(),
{
    if tr.len() == 0 {
        s
    } else {
        run_trace(op_spec(s, tr.first().0, tr.first().1), tr.drop_first())
    }
}

/// The operations happen at non-decreasing clock readings within the
/// window from `start_now` to `end_now`: one monotonic clock drives
/// them all.
pub open spec fn trace_in_window(tr: Seq<(StopwatchOp, u64)>, start_now: u64, end_now: u64) -> bool {
    &&& forall|i: int| 0 <= i < tr.len() ==> start_now <= (#[trigger] tr[i]).1 <= end_now
    &&& forall|i: int, j: int|
        0 <= i < j < tr.len() ==> (#[trigger] tr[i]).1 <= (#[trigger] tr[j]).1
}

/// The total time the accumulator spends running over the window from
/// `start_now` to `end_now` while the operations run: the sum of the
/// lengths of its running spans.
pub open spec fn running_time(
    s: Stopwatch,
    tr: Seq<(StopwatchOp, u64)>,
    start_now: u64,
    end_now: u64,
) -> int
    decreases tr.len(),
{
    if tr.len() == 0 {
        if s.started_spec() {
            end_now - start_now
        } else {
            0
        }
    } else {
        (if s.started_spec() {
            tr.first().1 - start_now
        } else {
            0
        }) + running_time(
            op_spec(s, tr.first().0, tr.first().1),
            tr.drop_first(),
            tr.first().1,
            end_now,
        )
    }
}

/// Every operation preserves well-formedness and the elapsed time as
/// observed at the moment it is applied.
pub proof fn lemma_op_preserves(s: Stopwatch, op: StopwatchOp, now_ms: u64)
    requires
        s.inv(now_ms as int),
    ensures
        op_spec(s, op, now_ms).inv(now_ms as int),
        op_spec(s, op, now_ms).elapsed_at(now_ms as int) == s.elapsed_at(now_ms as int),
{
}

/// Accumulation law: over any sequence of start/stop/toggle
/// operations driven by one monotonic clock, the elapsed time grows
/// by exactly the total time spent running — and so never decreases.
pub proof fn lemma_elapsed_is_running_time(
    s: Stopwatch,
    tr: Seq<(StopwatchOp, u64)>,
    start_now: u64,
    end_now: u64,
)
    requires
        s.inv(start_now as int),
        start_now <= end_now,
        trace_in_window(tr, start_now, end_now),
    ensures
        run_trace(s, tr).elapsed_at(end_now as int) == s.elapsed_at(start_now as int)
            + running_time(s, tr, start_now, end_now),
        running_time(s, tr, start_now, end_now) >= 0,
        run_trace(s, tr).inv(end_now as int),
    decreases tr.len(),
{
    if tr.len() == 0 {
        s.lemma_inv_monotone(start_now as int, end_now as int);
    } else {
        let t0 = tr.first().1;
        let s1 = op_spec(s, tr.first().0, t0);
        s.lemma_inv_monotone(start_now as int, t0 as int);
        lemma_op_preserves(s, tr.first().0, t0);
        assert(trace_in_window(tr.drop_first(), t0, end_now));
        lemma_elapsed_is_running_time(s1, tr.drop_first(), t0, end_now);
    }
}

pub const STOPWATCH_CONTROLS: &'static str =
    "[Q]: quit, [Space]: pause/resume, [Enter]: record lap";

/// Text of the line for the lap numbered `idx` (1-based) of `d`
/// milliseconds, newline included.
pub open spec fn spec_lap_line(idx: int, d: int) -> Seq<char> {
    "Lap "@ + spec_decimal(idx) + ": "@ + spec_format_duration(d) + "\n"@
}

/// Text of the whole lap list, one numbered line per recorded lap in
/// recording order.
pub open spec fn spec_laps_text(laps: Seq<u64>) -> Seq<char>
    decreases laps.len(),
{
    if laps.len() == 0 {
        Seq::empty()
    } else {
        spec_laps_text(laps.drop_last()) + spec_lap_line(laps.len() as int, laps.last() as int)
    }
}

/// Renders the recorded laps, one numbered line each.
pub fn laps_text(laps: &Vec<u64>) -> (r: String)
    ensures
        r@ == spec_laps_text(laps@),
{
    let mut out = String::new();
    let n = laps.len();
    let mut i: usize = 0;
    while i < n
        invariant
            n == laps@.len(),
            i <= n,
            out@ == spec_laps_text(laps@.take(i as int)),
        decreases n - i,
    {
        out.append("Lap ");
        let num = u64_to_string((i + 1) as u64);
        out.append(num.as_str());
        out.append(": ");
        let d = format_duration(laps[i]);
        out.append(d.as_str());
        out.append("\n");
        proof {
            let pre = laps@.take(i as int);
            let cur = laps@.take(i + 1 as int);
            assert(cur.drop_last() =~= pre);
            assert(cur.last() == laps@[i as int]);
            assert(out@ =~= spec_laps_text(cur));
        }
        i = i + 1;
    }
    proof {
        assert(laps@.take(n as int) =~= laps@);
    }
    out
}

/// The plain stopwatch controller: one accumulator with lap marks.
#[derive(Debug, Clone)]
pub struct StopwatchUI {
    pub stopwatch: Stopwatch,
}

impl StopwatchUI {
    /// Well-formedness at clock reading `now`.
    pub open spec fn inv(self, now: int) -> bool {
        self.stopwatch.inv(now)
    }

    /// A fresh stopwatch controller, its accumulator already running
    /// from `now_ms`.
    pub fn new(now_ms: u64) -> (r: Self)
        ensures
            r.inv(now_ms as int),
            r.stopwatch.elapsed_at(now_ms as int) == 0,
            r.stopwatch.started_spec(),
            r.stopwatch.recorded_laps@ == Seq::<u64>::empty(),
            r.stopwatch.last_lap_at is None,
    {
        StopwatchUI { stopwatch: Stopwatch::new(Some(now_ms), 0, now_ms) }
    }

    /// Renders the current frame: title, elapsed time, the controls
    /// hint, a blank spacer, and the lap list.
    pub fn show(&self, now_ms: u64) -> (r: Frame)
        requires
            self.inv(now_ms as int),
        ensures
            r.lines@.len() == 5,
            r.lines@[0]@ == "Stopwatch"@,
            r.lines@[1]@ == spec_format_duration(self.stopwatch.elapsed_at(now_ms as int)),
            r.lines@[2]@ == STOPWATCH_CONTROLS@,
            r.lines@[3]@ == Seq::<char>::empty(),
            r.lines@[4]@ == spec_laps_text(self.stopwatch.recorded_laps@),
            r.running == self.stopwatch.started_spec(),
    {
        let mut lines: Vec<String> = Vec::new();
        lines.push(String::from_str("Stopwatch"));
        lines.push(format_duration(self.stopwatch.elapsed(now_ms)));
        lines.push(String::from_str(STOPWATCH_CONTROLS));
        lines.push(String::new());
        lines.push(laps_text(&self.stopwatch.recorded_laps));
        Frame { lines, running: self.stopwatch.started() }
    }

    /// Applies one command: pause stops, resume starts, toggle flips,
    /// enter flips and additionally records a lap mark, subject to the
    /// debounce; every other command is ignored.
    pub fn update(&mut self, command: Command, now_ms: u64)
        requires
            old(self).inv(now_ms as int),
        ensures
            final(self).inv(now_ms as int),
            match command {
                Command::Pause => final(self).stopwatch == old(self).stopwatch.stop_spec(now_ms),
                Command::Resume => final(self).stopwatch == old(self).stopwatch.start_spec(now_ms),
                Command::Toggle => final(self).stopwatch == old(self).stopwatch.toggle_spec(
                    now_ms,
                ),
                Command::Enter => ({
                    let pre = old(self).stopwatch;
                    let post = final(self).stopwatch;
                    let toggled = pre.toggle_spec(now_ms);
                    &&& post.start_time == toggled.start_time
                    &&& post.elapsed_before == toggled.elapsed_before
                    &&& post.started_spec() == !pre.started_spec()
                    &&& post.elapsed_at(now_ms as int) == pre.elapsed_at(now_ms as int)
                    &&& pre.lap_accepted(now_ms as int) ==> post.recorded_laps@
                        == pre.recorded_laps@.push(pre.elapsed_at(now_ms as int) as u64)
                        && post.last_lap_at == Some(now_ms)
                    &&& !pre.lap_accepted(now_ms as int) ==> post == toggled
                }),
                _ => final(self).stopwatch == old(self).stopwatch,
            },
    {
        match command {
            Command::Pause => self.stopwatch.stop(now_ms),
            Command::Resume => self.stopwatch.start(now_ms),
            Command::Toggle => self.stopwatch.toggle(now_ms),
            Command::Enter => {
                self.stopwatch.toggle(now_ms);
                self.stopwatch.record_lap(now_ms);
            },
            _ => {},
        }
    }
}

} // verus!
