//! The client side of a daemon: connect, or start the daemon, wait, and
//! connect once more.
use vstd::prelude::*;
use crate::plugin::PluginError;

verus! {

/// How to start a daemon: the current executable, run again with the plugin's
/// name, the daemon verb and any further arguments.
pub struct DaemonSpawnConfig {
    /// First argument: the plugin's name.
    pub plugin_name: String,
    /// Second argument: the verb that enters the daemon.
    pub daemon_command: String,
    /// Further arguments.
    pub additional_args: Vec<String>,
}

impl DaemonSpawnConfig {
    /// A spawn configuration with no further arguments.
    pub fn new(plugin_name: String, daemon_command: String) -> (r: DaemonSpawnConfig)
        ensures
            r.plugin_name@ == plugin_name@,
            r.daemon_command@ == daemon_command@,
            r.additional_args@.len() == 0,
    {
        DaemonSpawnConfig { plugin_name, daemon_command, additional_args: Vec::new() }
    }

    /// The same configuration with the further arguments replaced.
    pub fn with_args(self, args: Vec<String>) -> (r: DaemonSpawnConfig)
        ensures
            r.plugin_name@ == self.plugin_name@,
            r.daemon_command@ == self.daemon_command@,
            r.additional_args@ == args@,
    {
        let mut c = self;
        c.additional_args = args;
        c
    }

    /// The arguments the daemon process is started with, as chars.
    pub open spec fn spec_args(&self) -> Seq<Seq<char>> {
        seq![self.plugin_name@, self.daemon_command@] + self.additional_args@.map_values(
            |a: String| a@,
        )
    }

    /// The arguments the daemon process is started with: the plugin's name,
    /// the daemon verb, then the further arguments.
    pub fn spawn_args(&self) -> (r: Vec<String>)
        ensures
            r@.map_values(|a: String| a@) == self.spec_args(),
    {
        let mut r: Vec<String> = Vec::new();
        r.push(self.plugin_name.clone());
        r.push(self.daemon_command.clone());
        let mut i: usize = 0;
        while i < self.additional_args.len()
            invariant
                i <= self.additional_args@.len(),
                r@.len() == i + 2,
                r@.map_values(|a: String| a@) == self.spec_args().take(i + 2),
            decreases self.additional_args@.len() - i,
        {
            r.push(self.additional_args[i].clone());
            assert(r@[i + 2]@ == self.spec_args()[i + 2]);
            assert(r@.map_values(|a: String| a@) =~= self.spec_args().take(i + 3));
            i = i + 1;
        }
        assert(self.spec_args().take(i + 2) =~= self.spec_args());
        r
    }
}

/// Configuration of a daemon's client.
pub struct DaemonClientConfig {
    /// Path of the daemon's channel.
    pub socket_path: String,
    /// How to start the daemon.
    pub daemon_spawn: DaemonSpawnConfig,
    /// Milliseconds to wait after starting the daemon, before connecting again.
    pub startup_wait_ms: u64,
    /// Size of the buffer a response is read into.
    pub buffer_size: usize,
}

impl DaemonClientConfig {
    /// A configuration with a 500 ms startup wait and a 1024-byte buffer.
    pub fn new(socket_path: String, daemon_spawn: DaemonSpawnConfig) -> (r: DaemonClientConfig)
        ensures
            r.socket_path@ == socket_path@,
            r.daemon_spawn == daemon_spawn,
            r.startup_wait_ms == 500,
            r.buffer_size == 1024,
    {
        DaemonClientConfig { socket_path, daemon_spawn, startup_wait_ms: 500, buffer_size: 1024 }
    }

    /// The same configuration with another startup wait.
    pub fn with_startup_wait(self, wait_ms: u64) -> (r: DaemonClientConfig)
        ensures
            r.socket_path@ == self.socket_path@,
            r.daemon_spawn == self.daemon_spawn,
            r.startup_wait_ms == wait_ms,
            r.buffer_size == self.buffer_size,
    {
        let mut c = self;
        c.startup_wait_ms = wait_ms;
        c
    }

    /// The same configuration with another buffer size.
    pub fn with_buffer_size(self, size: usize) -> (r: DaemonClientConfig)
        ensures
            r.socket_path@ == self.socket_path@,
            r.daemon_spawn == self.daemon_spawn,
            r.startup_wait_ms == self.startup_wait_ms,
            r.buffer_size == size,
    {
        let mut c = self;
        c.buffer_size = size;
        c
    }
}

/// Where a client stands in the connect-or-spawn protocol.
#[derive(Clone, Copy, PartialEq, Eq, Structural, Debug)]
pub enum ClientPhase {
    /// First connection attempt under way.
    Connecting,
    /// The daemon is being started.
    Spawning,
    /// Waiting for the daemon to come up.
    Waiting,
    /// The one retry of the connection under way.
    Retrying,
    /// Connected: one command goes out, one response comes back.
    Exchanging,
    /// Given up.
    Failed,
}

/// What happened since the client's last step.
pub enum ClientEvent {
    /// The connection attempt succeeded.
    Connected,
    /// The connection attempt failed, with this message.
    ConnectFailed(String),
    /// The daemon process was started.
    Spawned,
    /// The daemon process could not be started, with this message.
    SpawnFailed(String),
    /// The startup wait is over.
    WaitElapsed,
}

/// What the client does next.
pub enum ClientStep {
    /// Try to connect to the daemon's channel.
    Connect,
    /// Start the daemon process.
    Spawn,
    /// Sleep this many milliseconds.
    Sleep(u64),
    /// Send the command and read its one response.
    Exchange,
    /// Give up with this error.
    Fail(PluginError),
    /// Nothing: the event does not apply where the client stands.
    Idle,
}

/// State of a client in the connect-or-spawn protocol.
pub struct AutospawnClient {
    pub phase: ClientPhase,
    /// Connection attempts asked for so far.
    pub connects: u8,
    /// Daemon starts asked for so far.
    pub spawns: u8,
    /// Why the first connection attempt failed.
    pub first_error: Option<String>,
    /// Milliseconds to wait after starting the daemon.
    pub startup_wait_ms: u64,
}

/// The counts that go with each phase: one connection attempt and no start
/// before the daemon is started; one start, and at most one retry, after.
pub open spec fn counts_fit(c: AutospawnClient) -> bool {
    match c.phase {
        ClientPhase::Connecting => c.connects == 1 && c.spawns == 0,
        ClientPhase::Spawning | ClientPhase::Waiting => c.connects == 1 && c.spawns == 1,
        ClientPhase::Retrying => c.connects == 2 && c.spawns == 1,
        ClientPhase::Exchanging | ClientPhase::Failed => (c.connects == 1 && c.spawns <= 1) || (
        c.connects == 2 && c.spawns == 1),
    }
}

/// The client's next state and step after an event.
pub open spec fn client_next(c: AutospawnClient, ev: ClientEvent) -> (AutospawnClient, ClientStep) {
    match (c.phase, ev) {
        (ClientPhase::Connecting, ClientEvent::Connected) | (
            ClientPhase::Retrying,
            ClientEvent::Connected,
        ) => (AutospawnClient { phase: ClientPhase::Exchanging, ..c }, ClientStep::Exchange),
        (ClientPhase::Connecting, ClientEvent::ConnectFailed(e)) => (
            AutospawnClient {
                phase: ClientPhase::Spawning,
                spawns: 1,
                first_error: Some(e),
                ..c
            },
            ClientStep::Spawn,
        ),
        (ClientPhase::Retrying, ClientEvent::ConnectFailed(_)) => (
            AutospawnClient { phase: ClientPhase::Failed, ..c },
            ClientStep::Fail(PluginError::DaemonNotRunning { source: c.first_error }),
        ),
        (ClientPhase::Spawning, ClientEvent::Spawned) => (
            AutospawnClient { phase: ClientPhase::Waiting, ..c },
            ClientStep::Sleep(c.startup_wait_ms),
        ),
        (ClientPhase::Spawning, ClientEvent::SpawnFailed(e)) => (
            AutospawnClient { phase: ClientPhase::Failed, ..c },
            ClientStep::Fail(PluginError::DaemonNotRunning { source: Some(e) }),
        ),
        (ClientPhase::Waiting, ClientEvent::WaitElapsed) => (
            AutospawnClient { phase: ClientPhase::Retrying, connects: 2, ..c },
            ClientStep::Connect,
        ),
        _ => (c, ClientStep::Idle),
    }
}

/// The client's state after a sequence of events.
pub open spec fn client_run(c: AutospawnClient, events: Seq<ClientEvent>) -> AutospawnClient
    decreases events.len(),
{
    if events.len() == 0 {
        c
    } else {
        client_next(client_run(c, events.drop_last()), events.last()).0
    }
}

impl AutospawnClient {
    /// A client about to make its first connection attempt; that attempt is
    /// its first step.
    pub fn begin(config: &DaemonClientConfig) -> (r: (AutospawnClient, ClientStep))
        ensures
            r.0 == (AutospawnClient {
                phase: ClientPhase::Connecting,
                connects: 1,
                spawns: 0,
                first_error: None,
                startup_wait_ms: config.startup_wait_ms,
            }),
            r.1 is Connect,
    {
        (
            AutospawnClient {
                phase: ClientPhase::Connecting,
                connects: 1,
                spawns: 0,
                first_error: None,
                startup_wait_ms: config.startup_wait_ms,
            },
            ClientStep::Connect,
        )
    }

    /// The client's answer to an event.
    pub fn advance(&mut self, ev: ClientEvent) -> (r: ClientStep)
        ensures
            (*final(self), r) == client_next(*old(self), ev),
    {
        match (self.phase, ev) {
            (ClientPhase::Connecting, ClientEvent::Connected) | (
                ClientPhase::Retrying,
                ClientEvent::Connected,
            ) => {
                self.phase = ClientPhase::Exchanging;
                ClientStep::Exchange
            },
            (ClientPhase::Connecting, ClientEvent::ConnectFailed(e)) => {
                self.phase = ClientPhase::Spawning;
                self.spawns = 1;
                self.first_error = Some(e);
                ClientStep::Spawn
            },
            (ClientPhase::Retrying, ClientEvent::ConnectFailed(_)) => {
                self.phase = ClientPhase::Failed;
                ClientStep::Fail(PluginError::DaemonNotRunning { source: self.first_error.clone() })
            },
            (ClientPhase::Spawning, ClientEvent::Spawned) => {
                self.phase = ClientPhase::Waiting;
                ClientStep::Sleep(self.startup_wait_ms)
            },
            (ClientPhase::Spawning, ClientEvent::SpawnFailed(e)) => {
                self.phase = ClientPhase::Failed;
                ClientStep::Fail(PluginError::DaemonNotRunning { source: Some(e) })
            },
            (ClientPhase::Waiting, ClientEvent::WaitElapsed) => {
                self.phase = ClientPhase::Retrying;
                self.connects = 2;
                ClientStep::Connect
            },
            _ => ClientStep::Idle,
        }
    }
}

/// Each event keeps the counts in step with the phase.
proof fn lemma_next_keeps_counts(c: AutospawnClient, ev: ClientEvent)
    requires
        counts_fit(c),
    ensures
        counts_fit(client_next(c, ev).0),
{
}

/// Whatever happens, a client starts the daemon at most once and connects at
/// most twice: once at first, and once more only after starting the daemon
/// and waiting.
pub proof fn lemma_spawns_once_retries_once(config_wait_ms: u64, events: Seq<ClientEvent>)
    ensures
        ({
            let c = client_run(
                AutospawnClient {
                    phase: ClientPhase::Connecting,
                    connects: 1,
                    spawns: 0,
                    first_error: None,
                    startup_wait_ms: config_wait_ms,
                },
                events,
            );
            &&& c.spawns <= 1
            &&& c.connects <= 2
            &&& c.connects == 2 ==> c.spawns == 1
            &&& c.startup_wait_ms == config_wait_ms
        }),
    decreases events.len(),
{
    let c0 = AutospawnClient {
        phase: ClientPhase::Connecting,
        connects: 1,
        spawns: 0,
        first_error: None,
        startup_wait_ms: config_wait_ms,
    };
    lemma_run_keeps_counts(c0, events);
}

/// Once connected, or once given up, a client stays where it is whatever
/// happens next: it exchanges exactly one command and response, and never
/// connects or starts the daemon again.
pub proof fn lemma_settled_client_stays(c: AutospawnClient, events: Seq<ClientEvent>)
    requires
        c.phase == ClientPhase::Exchanging || c.phase == ClientPhase::Failed,
    ensures
        client_run(c, events) == c,
        forall|ev: ClientEvent| #[trigger] client_next(c, ev).1 is Idle,
    decreases events.len(),
{
    if events.len() > 0 {
        lemma_settled_client_stays(c, events.drop_last());
    }
}

proof fn lemma_run_keeps_counts(c0: AutospawnClient, events: Seq<ClientEvent>)
    requires
        counts_fit(c0),
    ensures
        counts_fit(client_run(c0, events)),
        client_run(c0, events).startup_wait_ms == c0.startup_wait_ms,
    decreases events.len(),
{
    if events.len() > 0 {
        lemma_run_keeps_counts(c0, events.drop_last());
        lemma_next_keeps_counts(client_run(c0, events.drop_last()), events.last());
    }
}

} // verus!
