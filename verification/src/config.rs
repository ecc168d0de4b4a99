//! Persisted configuration: the seconds-valued, serialization-ready
//! shape of the pomodoro timings and its defaults. Reading, writing
//! and JSON coding of the file belong to the adapter around the core.

use vstd::prelude::*;

use crate::pomodoro::PomodoroConfig;

verus! {

pub const DEFAULT_WORK_SECS: u64 = 25 * 60;

pub const DEFAULT_BREAK_SECS: u64 = 5 * 60;

pub const DEFAULT_LONG_BREAK_SECS: u64 = 10 * 60;

/// The seconds-valued shape of `PomodoroConfig` that the
/// configuration file stores.
#[derive(Clone, Copy, Debug, PartialEq, Eq, Structural)]
pub struct PomodoroConfigSerializable {
    pub work_time: u64,
    pub break_time: u64,
    pub long_break: u64,
}

/// The default timings, in seconds: 25 minute work, 5 minute break,
/// 10 minute long break.
pub open spec fn spec_default_timings() -> PomodoroConfigSerializable {
    PomodoroConfigSerializable {
        work_time: DEFAULT_WORK_SECS,
        break_time: DEFAULT_BREAK_SECS,
        long_break: DEFAULT_LONG_BREAK_SECS,
    }
}

impl From<PomodoroConfig> for PomodoroConfigSerializable {
    /// Converts millisecond-valued timings to the seconds-valued
    /// stored shape, truncating partial seconds.
    fn from(value: PomodoroConfig) -> (r: Self) {
        PomodoroConfigSerializable {
            work_time: value.work_time / 1000,
            break_time: value.break_time / 1000,
            long_break: value.long_break / 1000,
        }
    }
}

impl vstd::std_specs::convert::FromSpecImpl<PomodoroConfig> for PomodoroConfigSerializable {
    open spec fn obeys_from_spec() -> bool {
        true
    }

    open spec fn from_spec(value: PomodoroConfig) -> Self {
        PomodoroConfigSerializable {
            work_time: value.work_time / 1000,
            break_time: value.break_time / 1000,
            long_break: value.long_break / 1000,
        }
    }
}

impl Default for PomodoroConfigSerializable {
    fn default() -> (r: Self)
        ensures
            r == spec_default_timings(),
    {
        PomodoroConfigSerializable {
            work_time: DEFAULT_WORK_SECS,
            break_time: DEFAULT_BREAK_SECS,
            long_break: DEFAULT_LONG_BREAK_SECS,
        }
    }
}

/// The whole persisted configuration.
#[derive(Clone, Copy, Debug, PartialEq, Eq, Structural)]
pub struct Config {
    pub pomodoro_timings: PomodoroConfigSerializable,
}

impl Config {
    pub fn new() -> (r: Self)
        ensures
            r.pomodoro_timings == spec_default_timings(),
    {
        Config { pomodoro_timings: PomodoroConfigSerializable::default() }
    }
}

impl Default for Config {
    fn default() -> (r: Self)
        ensures
            r.pomodoro_timings == spec_default_timings(),
    {
        Config::new()
    }
}

} // verus!
