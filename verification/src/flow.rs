//! The decisions of the agent's and the proxy's connection flows: what the
//! proxy does with an agent's first message, what it answers a connect with,
//! where an HTTP client wants to go, whether a proxy accepted a connect, and
//! how the agent's pool of proxy connections is refilled.
use vstd::prelude::*;

use std::collections::VecDeque;

use crate::address::{NetAddress, SpecNetAddress};
use crate::agent_config::AgentConfig;
use crate::message::opt_string_view;
use crate::payload::{AgentMessagePayloadTypeValue, MessagePayload, PayloadType, ProxyMessagePayloadTypeValue, SpecMessagePayload};
use crate::proxy_config::{ProxyConfig, DEFAULT_TARGET_STREAM_SO_LINGER};
use crate::service::ReadMessageFramedResultContent;
use crate::text::same_text;
use crate::socks5::{
    Socks5Addr, Socks5InitCommandResultContent, Socks5InitCommandResultStatus, Socks5UdpDataCommandContent,
    Socks5UdpDataCommandResultContent,
};

verus! {

/// How long the proxy waits for an agent's first message, in seconds, when
/// the configuration does not say.
pub const DEFAULT_AGENT_CONNECTION_READ_TIMEOUT: u64 = 1200;

/// What the proxy does with the first message of an agent connection.
#[derive(Debug)]
pub enum InitAction {
    /// Connect the target for the agent.
    TcpConnect { message_id: String, user_token: String, source_address: NetAddress, target_address: NetAddress },
    /// Associate a UDP relay for the agent.
    UdpAssociate { message_id: String, user_token: String, source_address: NetAddress },
    /// The message is not a request: the connection is shut down.
    Invalid,
}

/// Decides the start of an agent connection.
pub struct InitializeFlow;

impl InitializeFlow {
    /// How long to wait for the agent's first message: the configured read
    /// timeout, else [`DEFAULT_AGENT_CONNECTION_READ_TIMEOUT`].
    pub fn read_timeout(configuration: &ProxyConfig) -> (res: u64)
        ensures
            res == match configuration.agent_connection_read_timeout {
                Some(t) => t,
                None => DEFAULT_AGENT_CONNECTION_READ_TIMEOUT,
            },
    {
        match configuration.agent_connection_read_timeout() {
            Some(t) => t,
            None => DEFAULT_AGENT_CONNECTION_READ_TIMEOUT,
        }
    }

    /// What to do with the agent's first message: a TCP connect request
    /// connects its target, a UDP associate request associates a relay for its
    /// source; the end of the stream, a message without payload, or any other
    /// payload is invalid.
    pub fn decide(content: Option<ReadMessageFramedResultContent>) -> (res: InitAction)
        ensures
            match content {
                Some(c) => match c.message_payload {
                    Some(p) => match p.payload_type {
                        PayloadType::AgentPayload(AgentMessagePayloadTypeValue::TcpConnect) => res matches InitAction::TcpConnect {
                            message_id,
                            user_token,
                            source_address,
                            target_address,
                        } && message_id == c.message_id && user_token == c.user_token && source_address@ == p.source_address@
                            && target_address@ == p.target_address@,
                        PayloadType::AgentPayload(AgentMessagePayloadTypeValue::UdpAssociate) => res matches InitAction::UdpAssociate {
                            message_id,
                            user_token,
                            source_address,
                        } && message_id == c.message_id && user_token == c.user_token && source_address@ == p.source_address@,
                        _ => res is Invalid,
                    },
                    None => res is Invalid,
                },
                None => res is Invalid,
            },
    {
        match content {
            Some(c) => {
                let ReadMessageFramedResultContent { message_id, message_payload, user_token } = c;
                match message_payload {
                    Some(p) => match p.payload_type {
                        PayloadType::AgentPayload(AgentMessagePayloadTypeValue::TcpConnect) => InitAction::TcpConnect {
                            message_id,
                            user_token,
                            source_address: p.source_address,
                            target_address: p.target_address,
                        },
                        PayloadType::AgentPayload(AgentMessagePayloadTypeValue::UdpAssociate) => InitAction::UdpAssociate {
                            message_id,
                            user_token,
                            source_address: p.source_address,
                        },
                        _ => InitAction::Invalid,
                    },
                    None => InitAction::Invalid,
                }
            },
            None => InitAction::Invalid,
        }
    }
}

/// Answers an agent's connect request.
pub struct TcpConnectFlow;

impl TcpConnectFlow {
    /// The linger time of target streams: the configured one, else
    /// [`DEFAULT_TARGET_STREAM_SO_LINGER`].
    pub fn target_stream_so_linger(configuration: &ProxyConfig) -> (res: u64)
        ensures
            res == match configuration.target_stream_so_linger {
                Some(t) => t,
                None => DEFAULT_TARGET_STREAM_SO_LINGER,
            },
    {
        match configuration.target_stream_so_linger() {
            Some(t) => t,
            None => DEFAULT_TARGET_STREAM_SO_LINGER,
        }
    }

    /// The answer to a connect request between `source_address` and
    /// `target_address`: a success or a failure payload without data.
    pub fn reply_payload(connected: bool, source_address: &NetAddress, target_address: &NetAddress) -> (res: MessagePayload)
        ensures
            res@ == (SpecMessagePayload {
                source_address: source_address@,
                target_address: target_address@,
                payload_type: PayloadType::ProxyPayload(
                    if connected {
                        ProxyMessagePayloadTypeValue::TcpConnectSuccess
                    } else {
                        ProxyMessagePayloadTypeValue::TcpConnectFail
                    },
                ),
                data: Seq::empty(),
            }),
    {
        let kind = if connected {
            ProxyMessagePayloadTypeValue::TcpConnectSuccess
        } else {
            ProxyMessagePayloadTypeValue::TcpConnectFail
        };
        MessagePayload::new(
            source_address.duplicate(),
            target_address.duplicate(),
            PayloadType::ProxyPayload(kind),
            Vec::new(),
        )
    }
}

/// Whether the proxy's answer is a payload of the expected kind; its source
/// and target addresses when it is.
pub fn accepted_reply(content: &Option<ReadMessageFramedResultContent>, expected: PayloadType) -> (res: Option<
    (NetAddress, NetAddress),
>)
    ensures
        match content {
            Some(c) => match c.message_payload {
                Some(p) => if p.payload_type == expected {
                    res matches Some((s, t)) && s@ == p.source_address@ && t@ == p.target_address@
                } else {
                    res is None
                },
                None => res is None,
            },
            None => res is None,
        },
{
    match content {
        Some(c) => match &c.message_payload {
            Some(p) => if p.payload_type == expected {
                Some((p.source_address.duplicate(), p.target_address.duplicate()))
            } else {
                None
            },
            None => None,
        },
        None => None,
    }
}

/// What `str::to_lowercase` gives for `s`.
pub uninterp spec fn lowercase(s: Seq<char>) -> Seq<char>;

/// `str::to_lowercase`: the lowercase form of `s`, by the Unicode rules of std.
#[verifier::external_body]
fn to_lowercase(s: &str) -> (res: String)
    ensures
        res@ == lowercase(s@),
{
    s.to_lowercase()
}

/// What `url::Url::parse` makes of `input`, if it accepts it: the scheme, the
/// port as `Url::port` gives it (absent when none is written or it is the
/// scheme's default), and the host as text.
pub uninterp spec fn url_parts(input: Seq<char>) -> Option<(Seq<char>, Option<u16>, Option<Seq<char>>)>;

/// `url::Url::parse`, then `scheme`, `port` and `host_str` of the URL.
#[verifier::external_body]
fn parse_url(input: &str) -> (res: Option<(String, Option<u16>, Option<String>)>)
    ensures
        match res {
            Some((scheme, port, host)) => url_parts(input@) == Some((scheme@, port, opt_string_view(host))),
            None => url_parts(input@) is None,
        },
{
    match url::Url::parse(input) {
        Ok(u) => Some((u.scheme().to_string(), u.port(), u.host_str().map(String::from))),
        Err(_) => None,
    }
}

/// Why an HTTP request names no target.
#[derive(Debug, Clone, Copy, PartialEq, Eq, Structural)]
pub enum HttpTargetError {
    /// The request URL does not parse.
    InvalidUrl,
    /// The URL has no host.
    MissingHost,
}

/// The target an HTTP client wants, from the parts of its request URL (see
/// [`url_parts`]): the host with the written port, else 443 for `https` and 80
/// for any other scheme.
pub open spec fn spec_http_target(parts: Option<(Seq<char>, Option<u16>, Option<Seq<char>>)>) -> Result<
    SpecNetAddress,
    HttpTargetError,
> {
    match parts {
        None => Err(HttpTargetError::InvalidUrl),
        Some((scheme, port, host)) => match host {
            None => Err(HttpTargetError::MissingHost),
            Some(h) => Ok(
                SpecNetAddress::Domain(
                    h,
                    match port {
                        Some(p) => p,
                        None => if scheme == "https"@ {
                            443
                        } else {
                            80
                        },
                    },
                ),
            ),
        },
    }
}

/// The port of an HTTP target: a port written in the URL is the target's
/// port whatever the scheme; only without one does the scheme decide, 443 for
/// `https` and 80 for every other scheme. The host is the URL's host.
pub proof fn lemma_http_target_port(scheme: Seq<char>, port: Option<u16>, host: Seq<char>)
    ensures
        spec_http_target(Some((scheme, port, Some(host)))) matches Ok(SpecNetAddress::Domain(h, q)) && h == host
            && (port matches Some(p) ==> q == p) && (port is None && scheme == "https"@ ==> q == 443) && (
        port is None && scheme != "https"@ ==> q == 80),
        spec_http_target(Some((scheme, port, None))) == Err::<SpecNetAddress, HttpTargetError>(
            HttpTargetError::MissingHost,
        ),
        spec_http_target(None) == Err::<SpecNetAddress, HttpTargetError>(HttpTargetError::InvalidUrl),
{
}

/// Finds where an HTTP client wants to go.
pub struct HttpConnectFlow;

impl HttpConnectFlow {
    /// The URL of a request and whether it is a `CONNECT`: for a method whose
    /// lowercase form is `connect`, `https://` followed by the request target;
    /// else the request target itself.
    pub fn request_url(method: &str, request_target: &str) -> (res: (String, bool))
        ensures
            res.1 == (lowercase(method@) == "connect"@),
            res.0@ == if res.1 {
                "https://"@ + request_target@
            } else {
                request_target@
            },
    {
        let lower = to_lowercase(method);
        let is_connect = same_text(lower.as_str(), "connect");
        if is_connect {
            let mut url = "https://".to_string();
            url.append(request_target);
            (url, true)
        } else {
            (request_target.to_string(), false)
        }
    }

    /// The target for the parts of a request URL; see [`spec_http_target`].
    pub fn target_of_parts(parts: Option<(String, Option<u16>, Option<String>)>) -> (res: Result<
        NetAddress,
        HttpTargetError,
    >)
        ensures
            match spec_http_target(
                match parts {
                    Some((s, p, h)) => Some((s@, p, opt_string_view(h))),
                    None => None,
                },
            ) {
                Ok(a) => res matches Ok(r) && r@ == a,
                Err(e) => res == Err::<NetAddress, HttpTargetError>(e),
            },
    {
        match parts {
            None => Err(HttpTargetError::InvalidUrl),
            Some((scheme, port, host)) => match host {
                None => Err(HttpTargetError::MissingHost),
                Some(h) => {
                    let port = match port {
                        Some(p) => p,
                        None => if same_text(scheme.as_str(), "https") {
                            443
                        } else {
                            80
                        },
                    };
                    Ok(NetAddress::Domain(h, port))
                },
            },
        }
    }

    /// The target named by a request URL: see [`spec_http_target`] over what
    /// `url::Url::parse` makes of it.
    pub fn target_address(request_url: &str) -> (res: Result<NetAddress, HttpTargetError>)
        ensures
            match spec_http_target(url_parts(request_url@)) {
                Ok(a) => res matches Ok(r) && r@ == a,
                Err(e) => res == Err::<NetAddress, HttpTargetError>(e),
            },
    {
        let parts = parse_url(request_url);
        Self::target_of_parts(parts)
    }
}

/// How many proxy connections the pool opens at first, when not configured.
pub const DEFAULT_INIT_PROXY_CONNECTION_NUMBER: usize = 32;
/// How few proxy connections the pool may hold before it refills, when not configured.
pub const DEFAULT_MIN_PROXY_CONNECTION_NUMBER: usize = 16;
/// How many proxy connections a refill adds, when not configured.
pub const DEFAULT_PROXY_CONNECTION_NUMBER_INCREMENTAL: usize = 16;
/// How often the pool is checked, in seconds, when not configured.
pub const DEFAULT_PROXY_CONNECTION_CHECK_INTERVAL_SECONDS: u64 = 30;
/// The linger time of proxy streams, in seconds, when not configured.
pub const DEFAULT_CONNECT_PROXY_TIMEOUT_SECONDS: u64 = 20;
/// The buffer size of streams and frames, when not configured.
pub const DEFAULT_BUFFER_SIZE: usize = 65535;

/// The agent's pooled proxy connections, oldest first: new connections join
/// at the back, and a client is handed the oldest.
pub struct ConnectionQueue<T> {
    items: VecDeque<T>,
}

impl<T> View for ConnectionQueue<T> {
    type V = Seq<T>;

    closed spec fn view(&self) -> Seq<T> {
        self.items@
    }
}

impl<T> ConnectionQueue<T> {
    /// A queue without connections.
    pub fn new() -> (res: Self)
        ensures
            res@ == Seq::<T>::empty(),
    {
        ConnectionQueue { items: VecDeque::new() }
    }

    /// How many connections wait.
    pub fn len(&self) -> (res: usize)
        ensures
            res == self@.len(),
    {
        self.items.len()
    }

    /// Puts `connection` at the back.
    pub fn push_back(&mut self, connection: T)
        ensures
            final(self)@ == old(self)@.push(connection),
    {
        self.items.push_back(connection);
    }

    /// Hands out the oldest connection, if there is one.
    pub fn pop_front(&mut self) -> (res: Option<T>)
        ensures
            match res {
                Some(c) => old(self)@.len() > 0 && c == old(self)@[0] && final(self)@ == old(self)@.drop_first(),
                None => old(self)@.len() == 0 && final(self)@ == old(self)@,
            },
    {
        let res = self.items.pop_front();
        proof {
            if res is Some {
                assert(self.items@ =~= old(self)@.drop_first());
            }
        }
        res
    }
}

/// The reply to a client's SOCKS 5 init command: success reporting the
/// address the relay is bound to when the proxy accepted, else failure
/// without an address.
pub fn socks5_init_reply(accepted: Option<Socks5Addr>) -> (res: Socks5InitCommandResultContent)
    ensures
        res.version == 5,
        res.bind_address == accepted,
        res.status == if accepted is Some {
            Socks5InitCommandResultStatus::Succeeded
        } else {
            Socks5InitCommandResultStatus::Failure
        },
{
    match accepted {
        Some(a) => Socks5InitCommandResultContent::new(Socks5InitCommandResultStatus::Succeeded, Some(a)),
        None => Socks5InitCommandResultContent::new(Socks5InitCommandResultStatus::Failure, None),
    }
}

/// What has happened in an agent's client flow (SOCKS 5 init or HTTP) when
/// the agent must decide what to do next.
#[derive(Debug, Clone, Copy, PartialEq, Eq, Structural)]
pub enum ClientFlowEvent {
    /// The client's request could not be read, or (HTTP) written out again.
    RequestUnreadable,
    /// The HTTP request's URL does not parse.
    UrlInvalid,
    /// The HTTP request's URL names no host.
    HostMissing,
    /// No proxy connection could be had, or the proxy did not accept.
    ProxyFailed,
    /// The proxy accepted the connection.
    ProxyAccepted,
}

/// What the agent does next in a client flow.
#[derive(Debug, Clone, Copy, PartialEq, Eq, Structural)]
pub enum ClientFlowAction {
    /// Answer the client with a failure and end the flow with an error.
    ReplyFailureAndStop,
    /// End the flow with an error and answer nothing.
    StopWithoutReply,
    /// Answer the client with success, then relay.
    ReplySuccessAndRelay,
    /// Relay at once: the request itself goes to the target (plain HTTP).
    RelayWithoutReply,
}

/// The next action of a client flow after `event`, where `forwards_request`
/// is set for a plain HTTP request: every failure is answered with a failure reply, except a URL that does not
/// parse, which ends the flow without a reply; an accepted connection is
/// answered with success before relaying, unless the request is a plain HTTP
/// request that goes on to the target as it is.
pub fn client_flow_step(event: ClientFlowEvent, forwards_request: bool) -> (res: ClientFlowAction)
    ensures
        event == ClientFlowEvent::UrlInvalid ==> res == ClientFlowAction::StopWithoutReply,
        event == ClientFlowEvent::ProxyAccepted ==> res == if forwards_request {
            ClientFlowAction::RelayWithoutReply
        } else {
            ClientFlowAction::ReplySuccessAndRelay
        },
        event != ClientFlowEvent::UrlInvalid && event != ClientFlowEvent::ProxyAccepted ==> res
            == ClientFlowAction::ReplyFailureAndStop,
{
    match event {
        ClientFlowEvent::UrlInvalid => ClientFlowAction::StopWithoutReply,
        ClientFlowEvent::ProxyAccepted => if forwards_request {
            ClientFlowAction::RelayWithoutReply
        } else {
            ClientFlowAction::ReplySuccessAndRelay
        },
        _ => ClientFlowAction::ReplyFailureAndStop,
    }
}

/// The status code and reason phrase the agent answers an HTTP client with:
/// 200 "Connection Established" once a CONNECT tunnel stands, else 400 with a
/// blank reason.
pub fn http_reply(established: bool) -> (res: (u16, &'static str))
    ensures
        res.0 == if established { 200u16 } else { 400u16 },
        res.1@ == if established { "Connection Established"@ } else { " "@ },
{
    if established {
        (200, "Connection Established")
    } else {
        (400, " ")
    }
}

/// The settings the agent runs its proxy connections with.
#[derive(Debug, Clone, Copy, PartialEq, Eq, Structural)]
pub struct ProxyConnectionSettings {
    /// How many connections the pool opens at first.
    pub init_connection_number: usize,
    /// How few connections the pool may hold before it refills.
    pub min_connection_number: usize,
    /// How many connections a refill adds.
    pub connection_number_incremental: usize,
    /// How often the pool is checked, in seconds.
    pub check_interval_seconds: u64,
    /// The linger time of proxy streams, in seconds.
    pub stream_so_linger: u64,
    /// The buffer size of message frames.
    pub message_framed_buffer_size: usize,
    /// Whether message bodies are compressed.
    pub compress: bool,
}

/// `o`'s value, else `d`.
pub open spec fn spec_or<A>(o: Option<A>, d: A) -> A {
    match o {
        Some(v) => v,
        None => d,
    }
}

impl ProxyConnectionSettings {
    /// The configured settings, each one missing taken from its default.
    pub fn from_config(configuration: &AgentConfig) -> (res: Self)
        ensures
            res == (ProxyConnectionSettings {
                init_connection_number: spec_or(
                    configuration.init_proxy_connection_number,
                    DEFAULT_INIT_PROXY_CONNECTION_NUMBER,
                ),
                min_connection_number: spec_or(
                    configuration.min_proxy_connection_number,
                    DEFAULT_MIN_PROXY_CONNECTION_NUMBER,
                ),
                connection_number_incremental: spec_or(
                    configuration.proxy_connection_number_incremental,
                    DEFAULT_PROXY_CONNECTION_NUMBER_INCREMENTAL,
                ),
                check_interval_seconds: spec_or(
                    configuration.proxy_connection_check_interval_seconds,
                    DEFAULT_PROXY_CONNECTION_CHECK_INTERVAL_SECONDS,
                ),
                stream_so_linger: spec_or(configuration.proxy_stream_so_linger, DEFAULT_CONNECT_PROXY_TIMEOUT_SECONDS),
                message_framed_buffer_size: spec_or(configuration.message_framed_buffer_size, DEFAULT_BUFFER_SIZE),
                compress: spec_or(configuration.compress, true),
            }),
    {
        ProxyConnectionSettings {
            init_connection_number: match configuration.init_proxy_connection_number() {
                Some(v) => v,
                None => DEFAULT_INIT_PROXY_CONNECTION_NUMBER,
            },
            min_connection_number: match configuration.min_proxy_connection_number() {
                Some(v) => v,
                None => DEFAULT_MIN_PROXY_CONNECTION_NUMBER,
            },
            connection_number_incremental: match configuration.proxy_connection_number_increasement() {
                Some(v) => v,
                None => DEFAULT_PROXY_CONNECTION_NUMBER_INCREMENTAL,
            },
            check_interval_seconds: match configuration.proxy_connection_check_interval_seconds() {
                Some(v) => v,
                None => DEFAULT_PROXY_CONNECTION_CHECK_INTERVAL_SECONDS,
            },
            stream_so_linger: match configuration.proxy_stream_so_linger() {
                Some(v) => v,
                None => DEFAULT_CONNECT_PROXY_TIMEOUT_SECONDS,
            },
            message_framed_buffer_size: match configuration.message_framed_buffer_size() {
                Some(v) => v,
                None => DEFAULT_BUFFER_SIZE,
            },
            compress: match configuration.compress() {
                Some(v) => v,
                None => true,
            },
        }
    }

    /// How many connections a pool of `pool_size` connections is to be filled
    /// up to: none while it holds at least the minimum; else the initial number
    /// for an empty pool, and the increment more for a non-empty one.
    pub fn refill_target(&self, pool_size: usize) -> (res: Option<usize>)
        requires
            0 < pool_size < self.min_connection_number ==> pool_size + self.connection_number_incremental <= usize::MAX,
        ensures
            res == if pool_size >= self.min_connection_number {
                None
            } else if pool_size == 0 {
                Some(self.init_connection_number)
            } else {
                Some((pool_size + self.connection_number_incremental) as usize)
            },
    {
        if pool_size >= self.min_connection_number {
            None
        } else if pool_size == 0 {
            Some(self.init_connection_number)
        } else {
            Some(pool_size + self.connection_number_incremental)
        }
    }
}

/// The payload that carries a client's UDP datagram to the proxy: from the
/// client's address to the datagram's destination, with its data.
pub fn udp_data_payload(client_address: &NetAddress, datagram: Socks5UdpDataCommandContent) -> (res: MessagePayload)
    ensures
        res@ == (SpecMessagePayload {
            source_address: client_address@,
            target_address: datagram.address@,
            payload_type: PayloadType::AgentPayload(AgentMessagePayloadTypeValue::UdpData),
            data: datagram.data@,
        }),
{
    MessagePayload::new(
        client_address.duplicate(),
        datagram.address.to_net_address(),
        PayloadType::AgentPayload(AgentMessagePayloadTypeValue::UdpData),
        datagram.data,
    )
}

/// What the agent sends its UDP client for a message from the proxy: a UDP
/// data payload becomes a datagram of fragment 0 from the payload's target,
/// sent to the payload's source; any other message ends the relay (`None`).
pub fn udp_reply(content: Option<ReadMessageFramedResultContent>) -> (res: Option<(NetAddress, Socks5UdpDataCommandResultContent)>)
    ensures
        match content {
            Some(c) => match c.message_payload {
                Some(p) => if p.payload_type == PayloadType::ProxyPayload(ProxyMessagePayloadTypeValue::UdpData) {
                    res matches Some((to, d)) && to@ == p.source_address@ && d.frag == 0 && d.dest_address@
                        == p.target_address@ && d.data@ == p.data@
                } else {
                    res is None
                },
                None => res is None,
            },
            None => res is None,
        },
{
    match content {
        Some(c) => match c.message_payload {
            Some(p) => if p.payload_type == PayloadType::ProxyPayload(ProxyMessagePayloadTypeValue::UdpData) {
                let MessagePayload { source_address, target_address, data, .. } = p;
                Some((source_address, Socks5UdpDataCommandResultContent::new(0, Socks5Addr::from_net_address(target_address), data)))
            } else {
                None
            },
            None => None,
        },
        None => None,
    }
}

} // verus!
