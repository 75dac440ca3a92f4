use ppaass::address::NetAddress;
use ppaass::agent_config::AgentConfig;
use ppaass::crypto::RsaCryptoFetcher;
use ppaass::fetcher::{AgentRsaCryptoFetcher, ProxyRsaCryptoFetcher};
use ppaass::flow::{
    accepted_reply, HttpConnectFlow, HttpTargetError, InitAction, InitializeFlow, ProxyConnectionSettings, TcpConnectFlow,
};
use ppaass::payload::{AgentMessagePayloadTypeValue, MessagePayload, PayloadType, ProxyMessagePayloadTypeValue};
use ppaass::proxy_config::ProxyConfig;
use ppaass::relay::{data_payloads, relay_step, RelayStep};
use ppaass::flow::{client_flow_step, ClientFlowAction, ClientFlowEvent, http_reply, socks5_init_reply, udp_data_payload, udp_reply, ConnectionQueue};
use ppaass::socks5::{answer_greeting, Socks5Addr, Socks5AuthMethod, Socks5InitCommandResultStatus, Socks5UdpDataCommandContent};
use ppaass::service::ReadMessageFramedResultContent;
use rsa::pkcs8::{EncodePrivateKey, EncodePublicKey, LineEnding};
use ppaass::server::{configuration_change_restarts, ProxyServer, ProxyServerSignal, ServerAction, ServerPhase, ServerSettings, WatchEvent};

fn content(payload_type: PayloadType, data: Vec<u8>) -> Option<ReadMessageFramedResultContent> {
    Some(ReadMessageFramedResultContent {
        message_id: "mid".to_string(),
        user_token: "user".to_string(),
        message_payload: Some(MessagePayload::new(
            NetAddress::IpV4([1, 1, 1, 1], 1),
            NetAddress::Domain("target".to_string(), 443),
            payload_type,
            data,
        )),
    })
}

#[test]
fn data_is_cut_into_frame_sized_payloads() {
    let source = NetAddress::IpV4([127, 0, 0, 1], 1);
    let target = NetAddress::IpV4([127, 0, 0, 2], 2);
    let data: Vec<u8> = (0u8..10).collect();
    let kind = PayloadType::ProxyPayload(ProxyMessagePayloadTypeValue::TcpData);
    let payloads = data_payloads(&source, &target, kind, &data, 4);
    assert_eq!(payloads.len(), 3);
    assert_eq!(payloads[0].data, vec![0, 1, 2, 3]);
    assert_eq!(payloads[1].data, vec![4, 5, 6, 7]);
    assert_eq!(payloads[2].data, vec![8, 9]);
    assert_eq!(payloads[2].payload_type, kind);
    assert!(data_payloads(&source, &target, kind, &[], 4).is_empty());
    assert_eq!(data_payloads(&source, &target, kind, &data, 10).len(), 1);
}

#[test]
fn relay_steps() {
    let kind = PayloadType::ProxyPayload(ProxyMessagePayloadTypeValue::TcpData);
    assert!(matches!(relay_step(None, kind), RelayStep::Finish));
    assert!(matches!(relay_step(content(kind, vec![5, 6]), kind), RelayStep::Forward(ref d) if *d == vec![5, 6]));
    let other = PayloadType::AgentPayload(AgentMessagePayloadTypeValue::TcpData);
    assert!(matches!(relay_step(content(other, vec![5]), kind), RelayStep::Invalid));
}

#[test]
fn proxy_init_decisions() {
    let connect = InitializeFlow::decide(content(PayloadType::AgentPayload(AgentMessagePayloadTypeValue::TcpConnect), vec![]));
    match connect {
        InitAction::TcpConnect { message_id, user_token, target_address, .. } => {
            assert_eq!(message_id, "mid");
            assert_eq!(user_token, "user");
            assert!(matches!(target_address, NetAddress::Domain(ref h, 443) if h == "target"));
        },
        other => panic!("unexpected {:?}", other),
    }
    let udp = InitializeFlow::decide(content(PayloadType::AgentPayload(AgentMessagePayloadTypeValue::UdpAssociate), vec![]));
    assert!(matches!(udp, InitAction::UdpAssociate { .. }));
    let data = InitializeFlow::decide(content(PayloadType::AgentPayload(AgentMessagePayloadTypeValue::TcpData), vec![1]));
    assert!(matches!(data, InitAction::Invalid));
    assert!(matches!(InitializeFlow::decide(None), InitAction::Invalid));
    let mut config = ProxyConfig::default();
    assert_eq!(InitializeFlow::read_timeout(&config), 1200);
    config.agent_connection_read_timeout = Some(5);
    assert_eq!(InitializeFlow::read_timeout(&config), 5);
    assert_eq!(TcpConnectFlow::target_stream_so_linger(&config), 20);
}

#[test]
fn proxy_connect_replies() {
    let source = NetAddress::IpV4([1, 2, 3, 4], 5);
    let target = NetAddress::Domain("t".to_string(), 6);
    let ok = TcpConnectFlow::reply_payload(true, &source, &target);
    assert_eq!(ok.payload_type, PayloadType::ProxyPayload(ProxyMessagePayloadTypeValue::TcpConnectSuccess));
    assert!(ok.data.is_empty());
    let fail = TcpConnectFlow::reply_payload(false, &source, &target);
    assert_eq!(fail.payload_type, PayloadType::ProxyPayload(ProxyMessagePayloadTypeValue::TcpConnectFail));
    let success = PayloadType::ProxyPayload(ProxyMessagePayloadTypeValue::TcpConnectSuccess);
    assert!(accepted_reply(&content(success, vec![]), success).is_some());
    assert!(accepted_reply(&content(success, vec![]), PayloadType::ProxyPayload(ProxyMessagePayloadTypeValue::TcpConnectFail)).is_none());
    assert!(accepted_reply(&None, success).is_none());
}

#[test]
fn http_request_urls() {
    let (url, connect) = HttpConnectFlow::request_url("CONNECT", "example.com:8443");
    assert!(connect);
    assert_eq!(url, "https://example.com:8443");
    let (url, connect) = HttpConnectFlow::request_url("GET", "http://example.com/index.html");
    assert!(!connect);
    assert_eq!(url, "http://example.com/index.html");
}

#[test]
fn http_targets() {
    assert!(matches!(HttpConnectFlow::target_address("https://example.com:8443"), Ok(NetAddress::Domain(ref h, 8443)) if h == "example.com"));
    assert!(matches!(HttpConnectFlow::target_address("https://example.com"), Ok(NetAddress::Domain(_, 443))));
    assert!(matches!(HttpConnectFlow::target_address("http://example.com/x"), Ok(NetAddress::Domain(_, 80))));
    assert!(matches!(HttpConnectFlow::target_address("ftp://example.com"), Ok(NetAddress::Domain(_, 80))));
    assert_eq!(HttpConnectFlow::target_address("not a url").unwrap_err(), HttpTargetError::InvalidUrl);
    assert_eq!(HttpConnectFlow::target_address("mailto:someone").unwrap_err(), HttpTargetError::MissingHost);
}

fn agent_config() -> AgentConfig {
    AgentConfig {
        port: None,
        so_recv_buffer_size: None,
        so_send_buffer_size: None,
        user_token: None,
        proxy_addresses: None,
        client_buffer_size: None,
        message_framed_buffer_size: Some(1024),
        thread_number: None,
        max_blocking_threads: None,
        thread_timeout: None,
        compress: None,
        client_stream_so_linger: None,
        proxy_stream_so_linger: None,
        so_backlog: None,
        agent_private_key_file: Some("mine.pem".to_string()),
        proxy_public_key_file: None,
        init_proxy_connection_number: None,
        min_proxy_connection_number: Some(4),
        proxy_connection_number_incremental: None,
        proxy_connection_check_interval_seconds: None,
        proxy_connection_check_timeout: None,
    }
}

#[test]
fn pool_settings_and_refills() {
    let settings = ProxyConnectionSettings::from_config(&agent_config());
    assert_eq!(settings.init_connection_number, 32);
    assert_eq!(settings.min_connection_number, 4);
    assert_eq!(settings.connection_number_incremental, 16);
    assert_eq!(settings.check_interval_seconds, 30);
    assert_eq!(settings.message_framed_buffer_size, 1024);
    assert!(settings.compress);
    assert_eq!(settings.refill_target(0), Some(32));
    assert_eq!(settings.refill_target(3), Some(19));
    assert_eq!(settings.refill_target(4), None);
}

#[test]
fn key_files() {
    let (public_key, private_key) = AgentRsaCryptoFetcher::key_files(&agent_config());
    assert_eq!(public_key, "ProxyPublicKey.pem");
    assert_eq!(private_key, "mine.pem");
    let (public_key, private_key) = ProxyRsaCryptoFetcher::key_files("/rsa/", "user");
    assert_eq!(public_key, "/rsa/user/AgentPublicKey.pem");
    assert_eq!(private_key, "/rsa/user/ProxyPrivateKey.pem");
}

#[test]
fn proxy_fetcher_knows_no_one_at_first() {
    let fetcher = ProxyRsaCryptoFetcher::new();
    assert!(matches!(fetcher.fetch("user"), Ok(None)));
}

#[test]
fn proxy_fetcher_finds_inserted_users() {
    let private_key = rsa::RsaPrivateKey::new(&mut rand::rngs::OsRng, 1024).unwrap();
    let public_key = rsa::RsaPublicKey::from(&private_key);
    let private_pem = private_key.to_pkcs8_pem(LineEnding::LF).unwrap().to_string();
    let public_pem = public_key.to_public_key_pem(LineEnding::LF).unwrap();
    let crypto = ppaass::crypto::RsaCrypto::new(&public_pem, &private_pem).unwrap();
    let again = ppaass::crypto::RsaCrypto::new(&public_pem, &private_pem).unwrap();
    let mut fetcher = ProxyRsaCryptoFetcher::new();
    fetcher.insert("alice".to_string(), crypto);
    fetcher.insert("alice".to_string(), again);
    let found = fetcher.fetch("alice").unwrap().unwrap();
    let secret = found.encrypt(b"token").unwrap();
    assert_eq!(found.decrypt(&secret).unwrap(), b"token".to_vec());
    assert!(matches!(fetcher.fetch("bob"), Ok(None)));
}

#[test]
fn proxy_server_life_cycle() {
    let mut server = ProxyServer::new();
    assert_eq!(server.current_phase(), ServerPhase::AwaitingStartup);
    let action = server.on_signal(Some(ProxyServerSignal::Startup { configuration: ProxyConfig::default() }));
    assert!(matches!(action, ServerAction::Start(_)));
    assert_eq!(server.current_phase(), ServerPhase::Running);
    assert!(matches!(server.on_signal(Some(ProxyServerSignal::Startup { configuration: ProxyConfig::default() })), ServerAction::Ignore));
    assert!(matches!(server.on_signal(None), ServerAction::Stop));
    assert_eq!(server.current_phase(), ServerPhase::Stopped);
    assert!(matches!(server.on_signal(Some(ProxyServerSignal::Shutdown)), ServerAction::Ignore));
    let mut waiting = ProxyServer::new();
    assert!(matches!(waiting.on_signal(Some(ProxyServerSignal::Shutdown)), ServerAction::Stop));
    assert!(configuration_change_restarts(WatchEvent::Other));
    assert!(!configuration_change_restarts(WatchEvent::Remove));
    assert!(!configuration_change_restarts(WatchEvent::NoticeWrite));
    let settings = ServerSettings::of_proxy(&ProxyConfig::default());
    assert_eq!(settings.port, 80);
    assert_eq!(settings.worker_threads, 1024);
    assert_eq!(ServerSettings::of_agent(&agent_config()).port, 10080);
}

#[test]
fn udp_payloads_and_replies() {
    let client = NetAddress::IpV4([10, 0, 0, 2], 5000);
    let datagram = Socks5UdpDataCommandContent { frag: 0, address: Socks5Addr::IpV4([8, 8, 4, 4], 53), data: vec![1, 2] };
    let payload = udp_data_payload(&client, datagram);
    assert_eq!(payload.payload_type, PayloadType::AgentPayload(AgentMessagePayloadTypeValue::UdpData));
    assert!(matches!(payload.target_address, NetAddress::IpV4([8, 8, 4, 4], 53)));
    assert_eq!(payload.data, vec![1, 2]);
    let reply = udp_reply(content(PayloadType::ProxyPayload(ProxyMessagePayloadTypeValue::UdpData), vec![3]));
    let (to, datagram) = reply.unwrap();
    assert!(matches!(to, NetAddress::IpV4([1, 1, 1, 1], 1)));
    assert_eq!(datagram.frag, 0);
    assert!(matches!(datagram.dest_address, Socks5Addr::Domain(ref h, 443) if h == "target"));
    assert_eq!(datagram.data, vec![3]);
    assert!(udp_reply(content(PayloadType::ProxyPayload(ProxyMessagePayloadTypeValue::TcpData), vec![3])).is_none());
    assert!(udp_reply(None).is_none());
    assert_eq!(answer_greeting(true).method, Socks5AuthMethod::NoAuthenticationRequired);
    assert_eq!(answer_greeting(false).method, Socks5AuthMethod::NoAcceptableMethods);
    assert!(matches!(Socks5Addr::from_net_address(NetAddress::IpV6([0; 16], 9)), Socks5Addr::IpV6(_, 9)));
}

#[test]
fn connection_queue_hands_out_the_oldest() {
    let mut queue = ConnectionQueue::new();
    assert!(queue.pop_front().is_none());
    queue.push_back("first");
    queue.push_back("second");
    queue.push_back("third");
    assert_eq!(queue.len(), 3);
    assert_eq!(queue.pop_front(), Some("first"));
    assert_eq!(queue.pop_front(), Some("second"));
    assert_eq!(queue.len(), 1);
    queue.push_back("fourth");
    assert_eq!(queue.pop_front(), Some("third"));
    assert_eq!(queue.pop_front(), Some("fourth"));
    assert!(queue.pop_front().is_none());
}

#[test]
fn socks5_init_reply_succeeds_only_with_an_address() {
    let ok = socks5_init_reply(Some(Socks5Addr::IpV4([10, 0, 0, 1], 1080)));
    assert_eq!(ok.version, 5);
    assert!(matches!(ok.status, Socks5InitCommandResultStatus::Succeeded));
    assert!(matches!(ok.bind_address, Some(Socks5Addr::IpV4([10, 0, 0, 1], 1080))));
    let failed = socks5_init_reply(None);
    assert!(matches!(failed.status, Socks5InitCommandResultStatus::Failure));
    assert!(failed.bind_address.is_none());
}

#[test]
fn http_replies() {
    assert_eq!(http_reply(true), (200, "Connection Established"));
    assert_eq!(http_reply(false), (400, " "));
}

#[test]
fn client_flow_steps() {
    assert_eq!(client_flow_step(ClientFlowEvent::RequestUnreadable, false), ClientFlowAction::ReplyFailureAndStop);
    assert_eq!(client_flow_step(ClientFlowEvent::HostMissing, true), ClientFlowAction::ReplyFailureAndStop);
    assert_eq!(client_flow_step(ClientFlowEvent::ProxyFailed, false), ClientFlowAction::ReplyFailureAndStop);
    assert_eq!(client_flow_step(ClientFlowEvent::UrlInvalid, false), ClientFlowAction::StopWithoutReply);
    assert_eq!(client_flow_step(ClientFlowEvent::ProxyAccepted, false), ClientFlowAction::ReplySuccessAndRelay);
    assert_eq!(client_flow_step(ClientFlowEvent::ProxyAccepted, true), ClientFlowAction::RelayWithoutReply);
}
