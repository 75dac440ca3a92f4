//! The servers' settings and the proxy server's life cycle: it waits for a
//! start signal carrying its configuration, runs, and stops on a shutdown
//! signal or when its signal channel breaks.
use vstd::prelude::*;

use crate::agent_config::AgentConfig;
use crate::flow::spec_or;
use crate::proxy_config::ProxyConfig;

verus! {

/// The port the agent listens on when not configured.
pub const DEFAULT_AGENT_SERVER_PORT: u16 = 10080;
/// The port the proxy listens on when not configured.
pub const DEFAULT_PROXY_SERVER_PORT: u16 = 80;

/// How a server's runtime and listening socket are set up.
#[derive(Debug, Clone, Copy, PartialEq, Eq, Structural)]
pub struct ServerSettings {
    /// How long an idle worker thread lives, in seconds.
    pub thread_keep_alive_seconds: u64,
    /// The most blocking threads.
    pub max_blocking_threads: usize,
    /// The number of worker threads.
    pub worker_threads: usize,
    /// The port to listen on.
    pub port: u16,
    /// The listen backlog.
    pub backlog: u32,
}

impl ServerSettings {
    /// The agent server's settings: each one missing taken from its default
    /// (2 seconds, 32 blocking threads, 1024 workers, port 10080, backlog 1024).
    pub fn of_agent(configuration: &AgentConfig) -> (res: Self)
        ensures
            res == (ServerSettings {
                thread_keep_alive_seconds: spec_or(configuration.thread_timeout, 2),
                max_blocking_threads: spec_or(configuration.max_blocking_threads, 32),
                worker_threads: spec_or(configuration.thread_number, 1024),
                port: spec_or(configuration.port, DEFAULT_AGENT_SERVER_PORT),
                backlog: spec_or(configuration.so_backlog, 1024),
            }),
    {
        ServerSettings {
            thread_keep_alive_seconds: match configuration.thread_timeout() {
                Some(v) => v,
                None => 2,
            },
            max_blocking_threads: match configuration.max_blocking_threads() {
                Some(v) => v,
                None => 32,
            },
            worker_threads: match configuration.thread_number() {
                Some(v) => v,
                None => 1024,
            },
            port: match configuration.port() {
                Some(v) => v,
                None => DEFAULT_AGENT_SERVER_PORT,
            },
            backlog: match configuration.so_backlog() {
                Some(v) => v,
                None => 1024,
            },
        }
    }

    /// The proxy server's settings: each one missing taken from its default
    /// (2 seconds, 32 blocking threads, 1024 workers, port 80, backlog 1024).
    pub fn of_proxy(configuration: &ProxyConfig) -> (res: Self)
        ensures
            res == (ServerSettings {
                thread_keep_alive_seconds: spec_or(configuration.thread_timeout, 2),
                max_blocking_threads: spec_or(configuration.max_blocking_threads, 32),
                worker_threads: spec_or(configuration.thread_number, 1024),
                port: spec_or(configuration.port, DEFAULT_PROXY_SERVER_PORT),
                backlog: spec_or(configuration.so_backlog, 1024),
            }),
    {
        ServerSettings {
            thread_keep_alive_seconds: match configuration.thread_timeout() {
                Some(v) => v,
                None => 2,
            },
            max_blocking_threads: match configuration.max_blocking_threads() {
                Some(v) => v,
                None => 32,
            },
            worker_threads: match configuration.thread_number() {
                Some(v) => v,
                None => 1024,
            },
            port: match configuration.port() {
                Some(v) => v,
                None => DEFAULT_PROXY_SERVER_PORT,
            },
            backlog: match configuration.so_backlog() {
                Some(v) => v,
                None => 1024,
            },
        }
    }
}

/// A signal to the proxy server.
#[derive(Debug)]
pub enum ProxyServerSignal {
    /// Start with this configuration.
    Startup { configuration: ProxyConfig },
    /// Stop.
    Shutdown,
}

/// Where the proxy server stands.
#[derive(Debug, Clone, Copy, PartialEq, Eq, Structural)]
pub enum ServerPhase {
    /// Waiting for the start signal.
    AwaitingStartup,
    /// Serving.
    Running,
    /// Stopped for good.
    Stopped,
}

/// What the proxy server does on a signal.
#[derive(Debug)]
pub enum ServerAction {
    /// Start serving with this configuration.
    Start(ProxyConfig),
    /// Shut the runtime down.
    Stop,
    /// Nothing.
    Ignore,
}

/// The proxy server's life cycle.
pub struct ProxyServer {
    phase: ServerPhase,
}

impl ProxyServer {
    /// Where the server stands.
    pub closed spec fn phase(&self) -> ServerPhase {
        self.phase
    }

    /// A server waiting for its start signal.
    pub fn new() -> (res: Self)
        ensures
            res.phase() == ServerPhase::AwaitingStartup,
    {
        ProxyServer { phase: ServerPhase::AwaitingStartup }
    }

    /// Where the server stands.
    pub fn current_phase(&self) -> (res: ServerPhase)
        ensures
            res == self.phase(),
    {
        self.phase
    }

    /// Takes the next signal, `None` when the signal channel is broken.
    /// Waiting, the server starts on a start signal and stops on anything
    /// else; running, it stops on a shutdown signal or a broken channel and
    /// ignores another start signal; stopped, it ignores everything.
    pub fn on_signal(&mut self, signal: Option<ProxyServerSignal>) -> (res: ServerAction)
        ensures
            match old(self).phase() {
                ServerPhase::AwaitingStartup => match signal {
                    Some(ProxyServerSignal::Startup { configuration }) => (res matches ServerAction::Start(c)
                        && c == configuration) && final(self).phase() == ServerPhase::Running,
                    _ => res is Stop && final(self).phase() == ServerPhase::Stopped,
                },
                ServerPhase::Running => match signal {
                    Some(ProxyServerSignal::Startup { .. }) => res is Ignore && final(self).phase()
                        == ServerPhase::Running,
                    _ => res is Stop && final(self).phase() == ServerPhase::Stopped,
                },
                ServerPhase::Stopped => res is Ignore && final(self).phase() == ServerPhase::Stopped,
            },
    {
        match self.phase {
            ServerPhase::AwaitingStartup => match signal {
                Some(ProxyServerSignal::Startup { configuration }) => {
                    self.phase = ServerPhase::Running;
                    ServerAction::Start(configuration)
                },
                _ => {
                    self.phase = ServerPhase::Stopped;
                    ServerAction::Stop
                },
            },
            ServerPhase::Running => match signal {
                Some(ProxyServerSignal::Startup { .. }) => ServerAction::Ignore,
                _ => {
                    self.phase = ServerPhase::Stopped;
                    ServerAction::Stop
                },
            },
            ServerPhase::Stopped => ServerAction::Ignore,
        }
    }
}

/// What happened to a watched file or directory.
#[derive(Debug, Clone, Copy, PartialEq, Eq, Structural)]
pub enum WatchEvent {
    /// A write is about to happen.
    NoticeWrite,
    /// It was removed.
    Remove,
    /// Anything else.
    Other,
}

/// Whether a change of the configuration file restarts the proxy: every
/// change but a notice of a coming write and a removal.
pub fn configuration_change_restarts(event: WatchEvent) -> (res: bool)
    ensures
        res == (event == WatchEvent::Other),
{
    match event {
        WatchEvent::NoticeWrite => false,
        WatchEvent::Remove => false,
        WatchEvent::Other => true,
    }
}

} // verus!
