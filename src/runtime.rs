//! The decisions of a daemon's event loop: configuration, what a handler
//! returns, and the loop's states from start to stop.
use vstd::prelude::*;

verus! {

/// Configuration of a daemon.
pub struct DaemonConfig {
    /// Path of the channel the daemon listens on.
    pub socket_path: String,
    /// Seconds between two ticks.
    pub tick_interval_secs: u64,
    /// Size of the buffer a message is read into.
    pub buffer_size: usize,
}

impl DaemonConfig {
    /// A configuration with a one-second tick and a 1024-byte buffer.
    pub fn new(socket_path: String) -> (r: DaemonConfig)
        ensures
            r.socket_path@ == socket_path@,
            r.tick_interval_secs == 1,
            r.buffer_size == 1024,
    {
        DaemonConfig { socket_path, tick_interval_secs: 1, buffer_size: 1024 }
    }

    /// The same configuration with another tick interval.
    pub fn with_tick_interval(self, secs: u64) -> (r: DaemonConfig)
        ensures
            r.socket_path@ == self.socket_path@,
            r.tick_interval_secs == secs,
            r.buffer_size == self.buffer_size,
    {
        let mut c = self;
        c.tick_interval_secs = secs;
        c
    }

    /// The same configuration with another buffer size.
    pub fn with_buffer_size(self, size: usize) -> (r: DaemonConfig)
        ensures
            r.socket_path@ == self.socket_path@,
            r.tick_interval_secs == self.tick_interval_secs,
            r.buffer_size == size,
    {
        let mut c = self;
        c.buffer_size = size;
        c
    }
}

/// The response that a handler's result carries, and whether it asks for
/// shutdown.
pub open spec fn reply_of<R>(h: HandleResult<R>) -> (R, bool) {
    match h {
        HandleResult::Response(x) => (x, false),
        HandleResult::Shutdown(x) => (x, true),
    }
}

/// What a handler returns for one command.
pub enum HandleResult<R> {
    /// Send the response and go on.
    Response(R),
    /// Send the response, then shut the daemon down.
    Shutdown(R),
}

impl<R> HandleResult<R> {
    /// A response after which the daemon goes on.
    pub fn response(r: R) -> (h: HandleResult<R>)
        ensures
            h == HandleResult::Response(r),
    {
        HandleResult::Response(r)
    }

    /// A response after which the daemon shuts down.
    pub fn shutdown(r: R) -> (h: HandleResult<R>)
        ensures
            h == HandleResult::Shutdown(r),
    {
        HandleResult::Shutdown(r)
    }

    /// The response to send, whichever the variant, and whether shutdown is
    /// requested after it.
    pub fn into_reply(self) -> (r: (R, bool))
        ensures
            r == reply_of(self),
    {
        match self {
            HandleResult::Response(x) => (x, false),
            HandleResult::Shutdown(x) => (x, true),
        }
    }
}

/// Phases of a daemon's life.
#[derive(Clone, Copy, PartialEq, Eq, Structural, Debug)]
pub enum Phase {
    Starting,
    Running,
    ShuttingDown,
    Stopped,
}

/// What woke the event loop while it waited.
#[derive(Clone, Copy, PartialEq, Eq, Structural, Debug)]
pub enum Wake {
    /// The tick timer fired.
    Tick,
    /// A client connected.
    Accepted,
    /// Accepting a connection failed.
    AcceptFailed,
}

/// What the event loop does next.
#[derive(Clone, Copy, PartialEq, Eq, Structural, Debug)]
pub enum LoopAction {
    /// Wait for the tick timer or a connection.
    Wait,
    /// Run the handler's tick callback.
    RunTick,
    /// Hand the new connection to a task of its own.
    Dispatch,
    /// Log the failed accept and go on.
    LogAcceptError,
    /// Leave the loop: drop any new connection, run the shutdown callback and
    /// remove the channel.
    Shutdown,
}

/// State of a daemon's event loop.
#[derive(Clone, Copy, PartialEq, Eq, Structural, Debug)]
pub struct DaemonRuntime {
    pub phase: Phase,
    /// Tick callbacks run so far (saturating).
    pub ticks: u64,
    /// Connections dispatched so far (saturating).
    pub dispatched: u64,
}

/// One more, short of the largest value.
pub open spec fn bump(n: u64) -> u64 {
    if n < u64::MAX {
        (n + 1) as u64
    } else {
        n
    }
}

/// The loop's check at the top of an iteration, given whether a connection
/// task has asked for shutdown.
pub open spec fn poll_step(s: DaemonRuntime, shutdown_requested: bool) -> (DaemonRuntime, LoopAction) {
    if shutdown_requested {
        (DaemonRuntime { phase: Phase::ShuttingDown, ..s }, LoopAction::Shutdown)
    } else {
        (s, LoopAction::Wait)
    }
}

/// The loop's answer to a wake-up. A shutdown request seen at that moment
/// wins over whatever woke the loop.
pub open spec fn wake_step(s: DaemonRuntime, wake: Wake, shutdown_requested: bool) -> (
    DaemonRuntime,
    LoopAction,
) {
    if shutdown_requested {
        (DaemonRuntime { phase: Phase::ShuttingDown, ..s }, LoopAction::Shutdown)
    } else {
        match wake {
            Wake::Tick => (DaemonRuntime { ticks: bump(s.ticks), ..s }, LoopAction::RunTick),
            Wake::Accepted => (
                DaemonRuntime { dispatched: bump(s.dispatched), ..s },
                LoopAction::Dispatch,
            ),
            Wake::AcceptFailed => (s, LoopAction::LogAcceptError),
        }
    }
}

fn saturating_bump(n: u64) -> (r: u64)
    ensures
        r == bump(n),
{
    if n < u64::MAX {
        n + 1
    } else {
        n
    }
}

impl DaemonRuntime {
    /// A daemon that has not started.
    pub fn new() -> (r: DaemonRuntime)
        ensures
            r == (DaemonRuntime { phase: Phase::Starting, ticks: 0, dispatched: 0 }),
    {
        DaemonRuntime { phase: Phase::Starting, ticks: 0, dispatched: 0 }
    }

    /// The start callback has run, before any connection was accepted: the
    /// daemon is running.
    pub fn start(&mut self)
        requires
            old(self).phase == Phase::Starting,
        ensures
            *final(self) == (DaemonRuntime { phase: Phase::Running, ..*old(self) }),
    {
        self.phase = Phase::Running;
    }

    /// The check at the top of each iteration.
    pub fn poll(&mut self, shutdown_requested: bool) -> (r: LoopAction)
        requires
            old(self).phase == Phase::Running,
        ensures
            (*final(self), r) == poll_step(*old(self), shutdown_requested),
    {
        if shutdown_requested {
            self.phase = Phase::ShuttingDown;
            LoopAction::Shutdown
        } else {
            LoopAction::Wait
        }
    }

    /// The answer to a wake-up of the loop.
    pub fn on_wake(&mut self, wake: Wake, shutdown_requested: bool) -> (r: LoopAction)
        requires
            old(self).phase == Phase::Running,
        ensures
            (*final(self), r) == wake_step(*old(self), wake, shutdown_requested),
    {
        if shutdown_requested {
            self.phase = Phase::ShuttingDown;
            return LoopAction::Shutdown;
        }
        match wake {
            Wake::Tick => {
                self.ticks = saturating_bump(self.ticks);
                LoopAction::RunTick
            },
            Wake::Accepted => {
                self.dispatched = saturating_bump(self.dispatched);
                LoopAction::Dispatch
            },
            Wake::AcceptFailed => LoopAction::LogAcceptError,
        }
    }

    /// The shutdown callback has run and the channel is removed: the daemon
    /// has stopped.
    pub fn finish(&mut self)
        requires
            old(self).phase == Phase::ShuttingDown,
        ensures
            *final(self) == (DaemonRuntime { phase: Phase::Stopped, ..*old(self) }),
    {
        self.phase = Phase::Stopped;
    }

    /// Whether the daemon has stopped.
    pub fn is_stopped(&self) -> (r: bool)
        ensures
            r == (self.phase == Phase::Stopped),
    {
        self.phase == Phase::Stopped
    }
}

/// A command whose handler asks for shutdown still gets its response; from the
/// moment the request is seen, the loop dispatches no further connection, and
/// the next wake-up (at the latest the next tick) leaves the loop, after which
/// only the stop remains.
pub proof fn lemma_shutdown_is_prompt<R>(response: R, s: DaemonRuntime, wake: Wake)
    requires
        s.phase == Phase::Running,
    ensures
        reply_of(HandleResult::Shutdown(response)) == (response, true),
        wake_step(s, wake, true).1 == LoopAction::Shutdown,
        wake_step(s, wake, true).1 != LoopAction::Dispatch,
        wake_step(s, wake, true).0.phase == Phase::ShuttingDown,
        wake_step(s, wake, true).0.dispatched == s.dispatched,
        poll_step(s, true).1 == LoopAction::Shutdown,
        poll_step(s, true).0.phase == Phase::ShuttingDown,
{
}

/// How many of `wakes` are ticks of the timer.
pub open spec fn tick_count(wakes: Seq<Wake>) -> nat
    decreases wakes.len(),
{
    if wakes.len() == 0 {
        0
    } else {
        tick_count(wakes.drop_last()) + if wakes.last() == Wake::Tick {
            1nat
        } else {
            0nat
        }
    }
}

/// The loop's state after answering `wakes` in order, with no shutdown
/// requested.
pub open spec fn run_wakes(s: DaemonRuntime, wakes: Seq<Wake>) -> DaemonRuntime
    decreases wakes.len(),
{
    if wakes.len() == 0 {
        s
    } else {
        wake_step(run_wakes(s, wakes.drop_last()), wakes.last(), false).0
    }
}

/// While no shutdown is requested, the daemon keeps running, and the tick
/// callback runs exactly once per tick of the timer, whatever connections
/// arrive in between.
pub proof fn lemma_one_tick_callback_per_tick(s: DaemonRuntime, wakes: Seq<Wake>)
    requires
        s.phase == Phase::Running,
        s.ticks + wakes.len() <= u64::MAX,
    ensures
        run_wakes(s, wakes).phase == Phase::Running,
        run_wakes(s, wakes).ticks == s.ticks + tick_count(wakes),
    decreases wakes.len(),
{
    if wakes.len() > 0 {
        lemma_one_tick_callback_per_tick(s, wakes.drop_last());
        lemma_tick_count_bound(wakes.drop_last());
    }
}

proof fn lemma_tick_count_bound(wakes: Seq<Wake>)
    ensures
        tick_count(wakes) <= wakes.len(),
    decreases wakes.len(),
{
    if wakes.len() > 0 {
        lemma_tick_count_bound(wakes.drop_last());
    }
}

} // verus!
