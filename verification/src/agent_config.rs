//! The agent's configuration, its command-line arguments, and how the two are merged.
use vstd::prelude::*;

verus! {

/// Where and how much the agent logs.
#[derive(Debug)]
pub struct AgentLogConfig {
    /// The directory log files are written to.
    pub log_dir: Option<String>,
    /// The prefix of the log file names.
    pub log_file: Option<String>,
    /// The most detailed level that is logged.
    pub max_log_level: Option<String>,
}

impl AgentLogConfig {
    /// The directory log files are written to.
    pub fn log_dir(&self) -> (res: &Option<String>)
        ensures
            *res == self.log_dir,
    {
        &self.log_dir
    }

    /// Sets the log directory.
    pub fn set_log_dir(&mut self, log_dir: String)
        ensures
            *final(self) == (AgentLogConfig { log_dir: Some(log_dir), ..*old(self) }),
    {
        self.log_dir = Some(log_dir);
    }

    /// The prefix of the log file names.
    pub fn log_file(&self) -> (res: &Option<String>)
        ensures
            *res == self.log_file,
    {
        &self.log_file
    }

    /// Sets the log file name prefix.
    pub fn set_log_file(&mut self, log_file: String)
        ensures
            *final(self) == (AgentLogConfig { log_file: Some(log_file), ..*old(self) }),
    {
        self.log_file = Some(log_file);
    }

    /// The most detailed level that is logged.
    pub fn max_log_level(&self) -> (res: &Option<String>)
        ensures
            *res == self.max_log_level,
    {
        &self.max_log_level
    }

    /// Sets the most detailed level that is logged.
    pub fn set_max_log_level(&mut self, max_log_level: String)
        ensures
            *final(self) == (AgentLogConfig { max_log_level: Some(max_log_level), ..*old(self) }),
    {
        self.max_log_level = Some(max_log_level);
    }
}

/// The settings of the agent.
#[derive(Debug)]
pub struct AgentConfig {
    /// The port the agent listens on.
    pub port: Option<u16>,
    /// The receive buffer size of sockets.
    pub so_recv_buffer_size: Option<u32>,
    /// The send buffer size of sockets.
    pub so_send_buffer_size: Option<u32>,
    /// The user token the agent presents to the proxy.
    pub user_token: Option<String>,
    /// The addresses of the proxies.
    pub proxy_addresses: Option<Vec<String>>,
    /// The buffer size of client connections.
    pub client_buffer_size: Option<usize>,
    /// The buffer size of message frames.
    pub message_framed_buffer_size: Option<usize>,
    /// The number of worker threads.
    pub thread_number: Option<usize>,
    /// The most blocking threads.
    pub max_blocking_threads: Option<usize>,
    /// How long an idle thread lives, in seconds.
    pub thread_timeout: Option<u64>,
    /// Whether message bodies are compressed.
    pub compress: Option<bool>,
    /// The linger time of client streams.
    pub client_stream_so_linger: Option<u64>,
    /// The linger time of proxy streams.
    pub proxy_stream_so_linger: Option<u64>,
    /// The listen backlog.
    pub so_backlog: Option<u32>,
    /// The file of the agent private key.
    pub agent_private_key_file: Option<String>,
    /// The file of the proxy public key.
    pub proxy_public_key_file: Option<String>,
    /// How many proxy connections the pool opens at first.
    pub init_proxy_connection_number: Option<usize>,
    /// How few proxy connections the pool may hold before it refills.
    pub min_proxy_connection_number: Option<usize>,
    /// How many proxy connections a refill adds.
    pub proxy_connection_number_incremental: Option<usize>,
    /// How often the pool is checked, in seconds.
    pub proxy_connection_check_interval_seconds: Option<u64>,
    /// How long a pool check may take, in seconds.
    pub proxy_connection_check_timeout: Option<u64>,
}

impl AgentConfig {
    /// The port the agent listens on.
    pub fn port(&self) -> (res: Option<u16>)
        ensures
            res == self.port,
    {
        self.port
    }

    /// Sets the port the agent listens on.
    pub fn set_port(&mut self, port: u16)
        ensures
            *final(self) == (AgentConfig { port: Some(port), ..*old(self) }),
    {
        self.port = Some(port);
    }

    /// The receive buffer size of sockets.
    pub fn so_recv_buffer_size(&self) -> (res: Option<u32>)
        ensures
            res == self.so_recv_buffer_size,
    {
        self.so_recv_buffer_size
    }

    /// The send buffer size of sockets.
    pub fn so_send_buffer_size(&self) -> (res: Option<u32>)
        ensures
            res == self.so_send_buffer_size,
    {
        self.so_send_buffer_size
    }

    /// The user token the agent presents to the proxy.
    pub fn user_token(&self) -> (res: &Option<String>)
        ensures
            *res == self.user_token,
    {
        &self.user_token
    }

    /// Sets the user token the agent presents to the proxy.
    pub fn set_user_token(&mut self, user_token: String)
        ensures
            *final(self) == (AgentConfig { user_token: Some(user_token), ..*old(self) }),
    {
        self.user_token = Some(user_token);
    }

    /// The addresses of the proxies.
    pub fn proxy_addresses(&self) -> (res: &Option<Vec<String>>)
        ensures
            *res == self.proxy_addresses,
    {
        &self.proxy_addresses
    }

    /// Sets the addresses of the proxies.
    pub fn set_proxy_addresses(&mut self, proxy_addresses: Vec<String>)
        ensures
            *final(self) == (AgentConfig { proxy_addresses: Some(proxy_addresses), ..*old(self) }),
    {
        self.proxy_addresses = Some(proxy_addresses);
    }

    /// The buffer size of client connections.
    pub fn client_buffer_size(&self) -> (res: Option<usize>)
        ensures
            res == self.client_buffer_size,
    {
        self.client_buffer_size
    }

    /// Sets the buffer size of client connections.
    pub fn set_client_buffer_size(&mut self, client_buffer_size: usize)
        ensures
            *final(self) == (AgentConfig { client_buffer_size: Some(client_buffer_size), ..*old(self) }),
    {
        self.client_buffer_size = Some(client_buffer_size);
    }

    /// The buffer size of message frames.
    pub fn message_framed_buffer_size(&self) -> (res: Option<usize>)
        ensures
            res == self.message_framed_buffer_size,
    {
        self.message_framed_buffer_size
    }

    /// Sets the buffer size of message frames.
    pub fn set_message_framed_buffer_size(&mut self, message_framed_buffer_size: usize)
        ensures
            *final(self) == (AgentConfig { message_framed_buffer_size: Some(message_framed_buffer_size), ..*old(self) }),
    {
        self.message_framed_buffer_size = Some(message_framed_buffer_size);
    }

    /// The number of worker threads.
    pub fn thread_number(&self) -> (res: Option<usize>)
        ensures
            res == self.thread_number,
    {
        self.thread_number
    }

    /// The most blocking threads.
    pub fn max_blocking_threads(&self) -> (res: Option<usize>)
        ensures
            res == self.max_blocking_threads,
    {
        self.max_blocking_threads
    }

    /// How long an idle thread lives, in seconds.
    pub fn thread_timeout(&self) -> (res: Option<u64>)
        ensures
            res == self.thread_timeout,
    {
        self.thread_timeout
    }

    /// Whether message bodies are compressed.
    pub fn compress(&self) -> (res: Option<bool>)
        ensures
            res == self.compress,
    {
        self.compress
    }

    /// Sets whether message bodies are compressed.
    pub fn set_compress(&mut self, compress: bool)
        ensures
            *final(self) == (AgentConfig { compress: Some(compress), ..*old(self) }),
    {
        self.compress = Some(compress);
    }

    /// The linger time of client streams.
    pub fn client_stream_so_linger(&self) -> (res: Option<u64>)
        ensures
            res == self.client_stream_so_linger,
    {
        self.client_stream_so_linger
    }

    /// The linger time of proxy streams.
    pub fn proxy_stream_so_linger(&self) -> (res: Option<u64>)
        ensures
            res == self.proxy_stream_so_linger,
    {
        self.proxy_stream_so_linger
    }

    /// The listen backlog.
    pub fn so_backlog(&self) -> (res: Option<u32>)
        ensures
            res == self.so_backlog,
    {
        self.so_backlog
    }

    /// Sets the listen backlog.
    pub fn set_so_backlog(&mut self, so_backlog: u32)
        ensures
            *final(self) == (AgentConfig { so_backlog: Some(so_backlog), ..*old(self) }),
    {
        self.so_backlog = Some(so_backlog);
    }

    /// The file of the agent private key.
    pub fn agent_private_key_file(&self) -> (res: &Option<String>)
        ensures
            *res == self.agent_private_key_file,
    {
        &self.agent_private_key_file
    }

    /// Sets the file of the agent private key.
    pub fn set_agent_private_key_file(&mut self, agent_private_key_file: String)
        ensures
            *final(self) == (AgentConfig { agent_private_key_file: Some(agent_private_key_file), ..*old(self) }),
    {
        self.agent_private_key_file = Some(agent_private_key_file);
    }

    /// The file of the proxy public key.
    pub fn proxy_public_key_file(&self) -> (res: &Option<String>)
        ensures
            *res == self.proxy_public_key_file,
    {
        &self.proxy_public_key_file
    }

    /// Sets the file of the proxy public key.
    pub fn set_proxy_public_key_file(&mut self, proxy_public_key_file: String)
        ensures
            *final(self) == (AgentConfig { proxy_public_key_file: Some(proxy_public_key_file), ..*old(self) }),
    {
        self.proxy_public_key_file = Some(proxy_public_key_file);
    }

    /// How many proxy connections the pool opens at first.
    pub fn init_proxy_connection_number(&self) -> (res: Option<usize>)
        ensures
            res == self.init_proxy_connection_number,
    {
        self.init_proxy_connection_number
    }

    /// How few proxy connections the pool may hold before it refills.
    pub fn min_proxy_connection_number(&self) -> (res: Option<usize>)
        ensures
            res == self.min_proxy_connection_number,
    {
        self.min_proxy_connection_number
    }

    /// How many proxy connections a refill adds.
    pub fn proxy_connection_number_increasement(&self) -> (res: Option<usize>)
        ensures
            res == self.proxy_connection_number_incremental,
    {
        self.proxy_connection_number_incremental
    }

    /// How often the pool is checked, in seconds.
    pub fn proxy_connection_check_interval_seconds(&self) -> (res: Option<u64>)
        ensures
            res == self.proxy_connection_check_interval_seconds,
    {
        self.proxy_connection_check_interval_seconds
    }

    /// How long a pool check may take, in seconds.
    pub fn proxy_connection_check_timeout(&self) -> (res: Option<u64>)
        ensures
            res == self.proxy_connection_check_timeout,
    {
        self.proxy_connection_check_timeout
    }
}

/// The agent's command-line arguments.
#[derive(Debug)]
pub struct AgentArguments {
    /// The configuration file.
    pub configuration_file: Option<String>,
    /// The port to listen on.
    pub port: Option<u16>,
    /// The user token.
    pub user_token: Option<String>,
    /// The log directory.
    pub log_dir: Option<String>,
    /// The log file name prefix.
    pub log_file: Option<String>,
    /// Whether to compress message bodies.
    pub compress: Option<bool>,
    /// The most detailed level to log.
    pub max_log_level: Option<String>,
    /// The listen backlog.
    pub so_backlog: Option<u32>,
    /// The buffer size of client connections.
    pub client_buffer_size: Option<usize>,
    /// The buffer size of message frames.
    pub message_framed_buffer_size: Option<usize>,
    /// The addresses of the proxies.
    pub proxy_addresses: Option<Vec<String>>,
    /// The file of the agent private key.
    pub agent_private_key_file: Option<String>,
    /// The file of the proxy public key.
    pub proxy_public_key_file: Option<String>,
}

/// `given` when there is one, else `current`.
pub open spec fn spec_override<A>(given: Option<A>, current: Option<A>) -> Option<A> {
    match given {
        Some(v) => Some(v),
        None => current,
    }
}

/// Lets the log settings given on the command line override those of the log
/// configuration file; the others stay.
pub fn merge_arguments_and_log_config(arguments: &AgentArguments, log_config: &mut AgentLogConfig)
    ensures
        final(log_config).log_dir == spec_override(arguments.log_dir, old(log_config).log_dir),
        final(log_config).log_file == spec_override(arguments.log_file, old(log_config).log_file),
        final(log_config).max_log_level == spec_override(arguments.max_log_level, old(log_config).max_log_level),
{
    if let Some(log_dir) = &arguments.log_dir {
        log_config.set_log_dir(log_dir.clone());
    }
    if let Some(log_file) = &arguments.log_file {
        log_config.set_log_file(log_file.clone());
    }
    if let Some(max_log_level) = &arguments.max_log_level {
        log_config.set_max_log_level(max_log_level.clone());
    }
}

/// Lets the port, the compression switch, the client and message frame buffer
/// sizes and the listen backlog given on the command line override those of
/// the configuration file; every other setting stays.
pub fn merge_arguments_and_config(arguments: &AgentArguments, config: &mut AgentConfig)
    ensures
        *final(config) == (AgentConfig {
            port: spec_override(arguments.port, old(config).port),
            compress: spec_override(arguments.compress, old(config).compress),
            client_buffer_size: spec_override(arguments.client_buffer_size, old(config).client_buffer_size),
            message_framed_buffer_size: spec_override(
                arguments.message_framed_buffer_size,
                old(config).message_framed_buffer_size,
            ),
            so_backlog: spec_override(arguments.so_backlog, old(config).so_backlog),
            ..*old(config)
        }),
{
    if let Some(port) = arguments.port {
        config.set_port(port);
    }
    if let Some(compress) = arguments.compress {
        config.set_compress(compress);
    }
    if let Some(client_buffer_size) = arguments.client_buffer_size {
        config.set_client_buffer_size(client_buffer_size);
    }
    if let Some(message_framed_buffer_size) = arguments.message_framed_buffer_size {
        config.set_message_framed_buffer_size(message_framed_buffer_size);
    }
    if let Some(so_backlog) = arguments.so_backlog {
        config.set_so_backlog(so_backlog);
    }
}

} // verus!
