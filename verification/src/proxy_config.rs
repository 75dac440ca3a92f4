//! The proxy's configuration, its command-line arguments, and how the two are merged.
use vstd::prelude::*;

use crate::agent_config::spec_override;

verus! {

/// How long the proxy waits to read from an agent, in seconds.
pub const DEFAULT_READ_AGENT_TIMEOUT_SECONDS: u64 = 20;
/// How many times the proxy tries to connect a target.
pub const DEFAULT_CONNECT_TARGET_RETRY: u16 = 2;
/// How long the proxy waits to connect a target, in seconds.
pub const DEFAULT_CONNECT_TARGET_TIMEOUT_SECONDS: u64 = 20;
/// The linger time of target streams, in seconds.
pub const DEFAULT_TARGET_STREAM_SO_LINGER: u64 = 20;

/// Where and how much the proxy logs.
#[derive(Debug)]
pub struct ProxyLogConfig {
    /// The directory log files are written to.
    pub log_dir: Option<String>,
    /// The prefix of the log file names.
    pub log_file: Option<String>,
    /// The most detailed level that is logged.
    pub max_log_level: Option<String>,
}

impl Default for ProxyLogConfig {
    /// No setting given.
    fn default() -> (res: Self)
        ensures
            res == (ProxyLogConfig { log_dir: None, log_file: None, max_log_level: None }),
    {
        ProxyLogConfig { log_dir: None, log_file: None, max_log_level: None }
    }
}

impl ProxyLogConfig {
    /// The directory log files are written to.
    pub fn log_dir(&self) -> (res: &Option<String>)
        ensures
            *res == self.log_dir,
    {
        &self.log_dir
    }

    /// Sets the log directory.
    pub fn set_log_dir(&mut self, log_dir: String)
        ensures
            *final(self) == (ProxyLogConfig { log_dir: Some(log_dir), ..*old(self) }),
    {
        self.log_dir = Some(log_dir);
    }

    /// The prefix of the log file names.
    pub fn log_file(&self) -> (res: &Option<String>)
        ensures
            *res == self.log_file,
    {
        &self.log_file
    }

    /// Sets the log file name prefix.
    pub fn set_log_file(&mut self, log_file: String)
        ensures
            *final(self) == (ProxyLogConfig { log_file: Some(log_file), ..*old(self) }),
    {
        self.log_file = Some(log_file);
    }

    /// The most detailed level that is logged.
    pub fn max_log_level(&self) -> (res: &Option<String>)
        ensures
            *res == self.max_log_level,
    {
        &self.max_log_level
    }

    /// Sets the most detailed level that is logged.
    pub fn set_max_log_level(&mut self, max_log_level: String)
        ensures
            *final(self) == (ProxyLogConfig { max_log_level: Some(max_log_level), ..*old(self) }),
    {
        self.max_log_level = Some(max_log_level);
    }
}

/// The settings of the proxy.
#[derive(Debug)]
pub struct ProxyConfig {
    /// The port the proxy listens on.
    pub port: Option<u16>,
    /// The directory holding the RSA key files of each user.
    pub rsa_root_dir: Option<String>,
    /// The receive buffer size of sockets.
    pub so_recv_buffer_size: Option<u32>,
    /// The send buffer size of sockets.
    pub so_send_buffer_size: Option<u32>,
    /// The buffer size of target connections.
    pub target_buffer_size: Option<usize>,
    /// The buffer size of message frames.
    pub message_framed_buffer_size: Option<usize>,
    /// The number of worker threads.
    pub thread_number: Option<usize>,
    /// The most blocking threads.
    pub max_blocking_threads: Option<usize>,
    /// How long an idle thread lives, in seconds.
    pub thread_timeout: Option<u64>,
    /// Whether message bodies are compressed.
    pub compress: Option<bool>,
    /// The linger time of agent streams.
    pub agent_stream_so_linger: Option<u64>,
    /// The linger time of target streams.
    pub target_stream_so_linger: Option<u64>,
    /// How long a read from an agent connection may take, in seconds.
    pub agent_connection_read_timeout: Option<u64>,
    /// The listen backlog.
    pub so_backlog: Option<u32>,
}

impl Default for ProxyConfig {
    /// No setting given.
    fn default() -> (res: Self)
        ensures
            res == (ProxyConfig {
                port: None,
                rsa_root_dir: None,
                so_recv_buffer_size: None,
                so_send_buffer_size: None,
                target_buffer_size: None,
                message_framed_buffer_size: None,
                thread_number: None,
                max_blocking_threads: None,
                thread_timeout: None,
                compress: None,
                agent_stream_so_linger: None,
                target_stream_so_linger: None,
                agent_connection_read_timeout: None,
                so_backlog: None,
            }),
    {
        ProxyConfig {
            port: None,
            rsa_root_dir: None,
            so_recv_buffer_size: None,
            so_send_buffer_size: None,
            target_buffer_size: None,
            message_framed_buffer_size: None,
            thread_number: None,
            max_blocking_threads: None,
            thread_timeout: None,
            compress: None,
            agent_stream_so_linger: None,
            target_stream_so_linger: None,
            agent_connection_read_timeout: None,
            so_backlog: None,
        }
    }
}

impl ProxyConfig {
    /// The port the proxy listens on.
    pub fn port(&self) -> (res: Option<u16>)
        ensures
            res == self.port,
    {
        self.port
    }

    /// Sets the port the proxy listens on.
    pub fn set_port(&mut self, port: u16)
        ensures
            *final(self) == (ProxyConfig { port: Some(port), ..*old(self) }),
    {
        self.port = Some(port);
    }

    /// The buffer size of target connections.
    pub fn target_buffer_size(&self) -> (res: Option<usize>)
        ensures
            res == self.target_buffer_size,
    {
        self.target_buffer_size
    }

    /// Sets the buffer size of target connections.
    pub fn set_target_buffer_size(&mut self, target_buffer_size: usize)
        ensures
            *final(self) == (ProxyConfig { target_buffer_size: Some(target_buffer_size), ..*old(self) }),
    {
        self.target_buffer_size = Some(target_buffer_size);
    }

    /// The buffer size of message frames.
    pub fn message_framed_buffer_size(&self) -> (res: Option<usize>)
        ensures
            res == self.message_framed_buffer_size,
    {
        self.message_framed_buffer_size
    }

    /// Sets the buffer size of message frames.
    pub fn set_message_framed_buffer_size(&mut self, message_framed_buffer_size: usize)
        ensures
            *final(self) == (ProxyConfig { message_framed_buffer_size: Some(message_framed_buffer_size), ..*old(self) }),
    {
        self.message_framed_buffer_size = Some(message_framed_buffer_size);
    }

    /// The number of worker threads.
    pub fn thread_number(&self) -> (res: Option<usize>)
        ensures
            res == self.thread_number,
    {
        self.thread_number
    }

    /// How long an idle thread lives, in seconds.
    pub fn thread_timeout(&self) -> (res: Option<u64>)
        ensures
            res == self.thread_timeout,
    {
        self.thread_timeout
    }

    /// The most blocking threads.
    pub fn max_blocking_threads(&self) -> (res: Option<usize>)
        ensures
            res == self.max_blocking_threads,
    {
        self.max_blocking_threads
    }

    /// Whether message bodies are compressed.
    pub fn compress(&self) -> (res: Option<bool>)
        ensures
            res == self.compress,
    {
        self.compress
    }

    /// Sets whether message bodies are compressed.
    pub fn set_compress(&mut self, compress: bool)
        ensures
            *final(self) == (ProxyConfig { compress: Some(compress), ..*old(self) }),
    {
        self.compress = Some(compress);
    }

    /// The directory holding the RSA key files of each user.
    pub fn rsa_root_dir(&self) -> (res: &Option<String>)
        ensures
            *res == self.rsa_root_dir,
    {
        &self.rsa_root_dir
    }

    /// Sets the directory holding the RSA key files of each user.
    pub fn set_rsa_root_dir(&mut self, rsa_root_dir: String)
        ensures
            *final(self) == (ProxyConfig { rsa_root_dir: Some(rsa_root_dir), ..*old(self) }),
    {
        self.rsa_root_dir = Some(rsa_root_dir);
    }

    /// The linger time of target streams.
    pub fn target_stream_so_linger(&self) -> (res: Option<u64>)
        ensures
            res == self.target_stream_so_linger,
    {
        self.target_stream_so_linger
    }

    /// The linger time of agent streams.
    pub fn agent_stream_so_linger(&self) -> (res: Option<u64>)
        ensures
            res == self.agent_stream_so_linger,
    {
        self.agent_stream_so_linger
    }

    /// The listen backlog.
    pub fn so_backlog(&self) -> (res: Option<u32>)
        ensures
            res == self.so_backlog,
    {
        self.so_backlog
    }

    /// Sets the listen backlog.
    pub fn set_so_backlog(&mut self, so_backlog: u32)
        ensures
            *final(self) == (ProxyConfig { so_backlog: Some(so_backlog), ..*old(self) }),
    {
        self.so_backlog = Some(so_backlog);
    }

    /// The receive buffer size of sockets.
    pub fn so_recv_buffer_size(&self) -> (res: Option<u32>)
        ensures
            res == self.so_recv_buffer_size,
    {
        self.so_recv_buffer_size
    }

    /// The send buffer size of sockets.
    pub fn so_send_buffer_size(&self) -> (res: Option<u32>)
        ensures
            res == self.so_send_buffer_size,
    {
        self.so_send_buffer_size
    }

    /// How long a read from an agent connection may take, in seconds.
    pub fn agent_connection_read_timeout(&self) -> (res: Option<u64>)
        ensures
            res == self.agent_connection_read_timeout,
    {
        self.agent_connection_read_timeout
    }
}

/// The proxy's command-line arguments.
#[derive(Debug)]
pub struct ProxyArguments {
    /// The configuration file.
    pub configuration_file: Option<String>,
    /// The port to listen on.
    pub port: Option<u16>,
    /// The directory holding the RSA key files of each user.
    pub rsa_root_dir: Option<String>,
    /// The log directory.
    pub log_dir: Option<String>,
    /// The log file name prefix.
    pub log_file: Option<String>,
    /// Whether to compress message bodies.
    pub compress: Option<bool>,
    /// The most detailed level to log.
    pub max_log_level: Option<String>,
    /// The listen backlog.
    pub so_backlog: Option<u32>,
    /// The buffer size of target connections.
    pub target_buffer_size: Option<usize>,
    /// The buffer size of message frames.
    pub message_framed_buffer_size: Option<usize>,
}

/// Lets the log settings given on the command line override those of the log
/// configuration file; the others stay.
pub fn merge_arguments_and_log_config(arguments: &ProxyArguments, log_config: &mut ProxyLogConfig)
    ensures
        *final(log_config) == (ProxyLogConfig {
            log_dir: spec_override(arguments.log_dir, old(log_config).log_dir),
            log_file: spec_override(arguments.log_file, old(log_config).log_file),
            max_log_level: spec_override(arguments.max_log_level, old(log_config).max_log_level),
        }),
{
    if let Some(log_dir) = &arguments.log_dir {
        log_config.set_log_dir(log_dir.clone());
    }
    if let Some(log_file) = &arguments.log_file {
        log_config.set_log_file(log_file.clone());
    }
    if let Some(max_log_level) = &arguments.max_log_level {
        log_config.set_max_log_level(max_log_level.clone());
    }
}

/// Lets the port, the compression switch, the target and message frame buffer
/// sizes, the RSA directory and the listen backlog given on the command line
/// override those of the configuration file; every other setting stays.
pub fn merge_arguments_and_config(arguments: &ProxyArguments, config: &mut ProxyConfig)
    ensures
        *final(config) == (ProxyConfig {
            port: spec_override(arguments.port, old(config).port),
            compress: spec_override(arguments.compress, old(config).compress),
            target_buffer_size: spec_override(arguments.target_buffer_size, old(config).target_buffer_size),
            message_framed_buffer_size: spec_override(
                arguments.message_framed_buffer_size,
                old(config).message_framed_buffer_size,
            ),
            rsa_root_dir: spec_override(arguments.rsa_root_dir, old(config).rsa_root_dir),
            so_backlog: spec_override(arguments.so_backlog, old(config).so_backlog),
            ..*old(config)
        }),
{
    if let Some(port) = arguments.port {
        config.set_port(port);
    }
    if let Some(compress) = arguments.compress {
        config.set_compress(compress);
    }
    if let Some(target_buffer_size) = arguments.target_buffer_size {
        config.set_target_buffer_size(target_buffer_size);
    }
    if let Some(message_framed_buffer_size) = arguments.message_framed_buffer_size {
        config.set_message_framed_buffer_size(message_framed_buffer_size);
    }
    if let Some(rsa_root_dir) = &arguments.rsa_root_dir {
        config.set_rsa_root_dir(rsa_root_dir.clone());
    }
    if let Some(so_backlog) = arguments.so_backlog {
        config.set_so_backlog(so_backlog);
    }
}

} // verus!
