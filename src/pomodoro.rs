//! The messages and settings of a focus-timer daemon built on this framework.
use vstd::prelude::*;

verus! {

/// What the timer is doing.
#[derive(Clone, Copy, PartialEq, Eq, Structural, Debug)]
pub enum PomoMode {
    Focus,
    Break,
    Idle,
}

/// A command sent to the timer daemon.
#[derive(Clone, Copy, PartialEq, Eq, Structural, Debug)]
pub enum DaemonCommand {
    Start {
        task_id: u32,
        focus_len: u64,
        break_len: u64,
        cycles: u32,
        no_gui: bool,
        no_sound: bool,
    },
    Status,
    Stop,
    Pause,
    Resume,
    Ping,
    Kill,
}

/// The timer daemon's answer to a command.
pub enum DaemonResponse {
    Success(String),
    Error(String),
    Status {
        remaining_secs: u64,
        is_running: bool,
        mode: PomoMode,
        cycles_left: u32,
        task_id: Option<u32>,
    },
    Pong,
}

/// Settings of the timer, in minutes and counts.
pub struct TimerSettings {
    pub default_focus_minutes: u64,
    pub default_break_minutes: u64,
    pub long_break_minutes: u64,
    pub pomodoros_before_long_break: u32,
    pub default_cycles: u32,
}

impl Default for TimerSettings {
    /// Focus 25 minutes, break 5, long break 15 after every 4, and 4 cycles.
    fn default() -> (r: TimerSettings)
        ensures
            r.default_focus_minutes == 25,
            r.default_break_minutes == 5,
            r.long_break_minutes == 15,
            r.pomodoros_before_long_break == 4,
            r.default_cycles == 4,
    {
        TimerSettings {
            default_focus_minutes: 25,
            default_break_minutes: 5,
            long_break_minutes: 15,
            pomodoros_before_long_break: 4,
            default_cycles: 4,
        }
    }
}

/// Timing of the daemon's client and loop.
pub struct TimingSettings {
    /// Milliseconds a client waits for the daemon to start.
    pub daemon_startup_wait_ms: u64,
    /// Seconds between two ticks.
    pub tick_interval_secs: u64,
    /// Size of the buffer a message is read into.
    pub ipc_buffer_size: usize,
}

impl Default for TimingSettings {
    /// A 500 ms startup wait, a one-second tick and a 1024-byte buffer.
    fn default() -> (r: TimingSettings)
        ensures
            r.daemon_startup_wait_ms == 500,
            r.tick_interval_secs == 1,
            r.ipc_buffer_size == 1024,
    {
        TimingSettings { daemon_startup_wait_ms: 500, tick_interval_secs: 1, ipc_buffer_size: 1024 }
    }
}

/// What a break window shows.
pub struct BreakConfig {
    pub duration_secs: u64,
    pub is_long_break: bool,
    pub play_sound: bool,
}

impl Default for BreakConfig {
    /// A five-minute short break with sound.
    fn default() -> (r: BreakConfig)
        ensures
            r.duration_secs == 300,
            !r.is_long_break,
            r.play_sound,
    {
        BreakConfig { duration_secs: 5 * 60, is_long_break: false, play_sound: true }
    }
}

} // verus!
