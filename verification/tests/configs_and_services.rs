use ppaass::address::NetAddress;
use ppaass::agent_config::{self, AgentArguments, AgentConfig, AgentLogConfig};
use ppaass::error::PpaassError;
use ppaass::message::Message;
use ppaass::payload::{AgentMessagePayloadTypeValue, MessagePayload, PayloadEncryptionType, PayloadType};
use ppaass::proxy_config::{self, ProxyArguments, ProxyConfig, ProxyLogConfig};
use ppaass::service::{
    MessageFramedReader, MessageFramedWriter, PayloadEncryptionTypeSelectRequest, PayloadEncryptionTypeSelector, ReadEvent,
};

fn empty_agent_config() -> AgentConfig {
    AgentConfig {
        port: None,
        so_recv_buffer_size: Some(1),
        so_send_buffer_size: None,
        user_token: Some("user".to_string()),
        proxy_addresses: None,
        client_buffer_size: None,
        message_framed_buffer_size: None,
        thread_number: Some(4),
        max_blocking_threads: None,
        thread_timeout: None,
        compress: Some(false),
        client_stream_so_linger: None,
        proxy_stream_so_linger: None,
        so_backlog: None,
        agent_private_key_file: None,
        proxy_public_key_file: None,
        init_proxy_connection_number: Some(32),
        min_proxy_connection_number: None,
        proxy_connection_number_incremental: Some(16),
        proxy_connection_check_interval_seconds: None,
        proxy_connection_check_timeout: None,
    }
}

fn agent_arguments() -> AgentArguments {
    AgentArguments {
        configuration_file: None,
        port: Some(10080),
        user_token: Some("ignored".to_string()),
        log_dir: Some("/var/log".to_string()),
        log_file: None,
        compress: Some(true),
        max_log_level: Some("INFO".to_string()),
        so_backlog: None,
        client_buffer_size: Some(4096),
        message_framed_buffer_size: None,
        proxy_addresses: None,
        agent_private_key_file: None,
        proxy_public_key_file: None,
    }
}

#[test]
fn agent_config_getters_and_setters() {
    let mut config = empty_agent_config();
    assert_eq!(config.port(), None);
    config.set_port(8080);
    assert_eq!(config.port(), Some(8080));
    config.set_user_token("other".to_string());
    assert_eq!(config.user_token(), &Some("other".to_string()));
    config.set_proxy_addresses(vec!["a:1".to_string()]);
    assert_eq!(config.proxy_addresses(), &Some(vec!["a:1".to_string()]));
    config.set_so_backlog(128);
    assert_eq!(config.so_backlog(), Some(128));
    config.set_agent_private_key_file("k".to_string());
    assert_eq!(config.agent_private_key_file(), &Some("k".to_string()));
    config.set_proxy_public_key_file("p".to_string());
    assert_eq!(config.proxy_public_key_file(), &Some("p".to_string()));
    assert_eq!(config.thread_number(), Some(4));
    assert_eq!(config.init_proxy_connection_number(), Some(32));
    assert_eq!(config.proxy_connection_number_increasement(), Some(16));
    assert_eq!(config.so_recv_buffer_size(), Some(1));
    assert_eq!(config.min_proxy_connection_number(), None);
}

#[test]
fn agent_arguments_override_the_config() {
    let mut config = empty_agent_config();
    agent_config::merge_arguments_and_config(&agent_arguments(), &mut config);
    assert_eq!(config.port(), Some(10080));
    assert_eq!(config.compress(), Some(true));
    assert_eq!(config.client_buffer_size(), Some(4096));
    assert_eq!(config.message_framed_buffer_size(), None);
    assert_eq!(config.user_token(), &Some("user".to_string()));
}

#[test]
fn agent_arguments_override_the_log_config() {
    let mut log = AgentLogConfig { log_dir: None, log_file: Some("agent".to_string()), max_log_level: None };
    agent_config::merge_arguments_and_log_config(&agent_arguments(), &mut log);
    assert_eq!(log.log_dir(), &Some("/var/log".to_string()));
    assert_eq!(log.log_file(), &Some("agent".to_string()));
    assert_eq!(log.max_log_level(), &Some("INFO".to_string()));
}

#[test]
fn proxy_config_defaults_and_merge() {
    let mut config = ProxyConfig::default();
    assert_eq!(config.port(), None);
    assert_eq!(config.rsa_root_dir(), &None);
    let arguments = ProxyArguments {
        configuration_file: None,
        port: Some(80),
        rsa_root_dir: Some("/rsa".to_string()),
        log_dir: None,
        log_file: Some("proxy".to_string()),
        compress: None,
        max_log_level: None,
        so_backlog: Some(64),
        target_buffer_size: Some(1024),
        message_framed_buffer_size: Some(2048),
    };
    config.set_compress(true);
    proxy_config::merge_arguments_and_config(&arguments, &mut config);
    assert_eq!(config.port(), Some(80));
    assert_eq!(config.rsa_root_dir(), &Some("/rsa".to_string()));
    assert_eq!(config.compress(), Some(true));
    assert_eq!(config.so_backlog(), Some(64));
    assert_eq!(config.target_buffer_size(), Some(1024));
    assert_eq!(config.message_framed_buffer_size(), Some(2048));
    assert_eq!(config.agent_connection_read_timeout(), None);
    let mut log = ProxyLogConfig::default();
    log.set_max_log_level("DEBUG".to_string());
    proxy_config::merge_arguments_and_log_config(&arguments, &mut log);
    assert_eq!(log.log_file(), &Some("proxy".to_string()));
    assert_eq!(log.max_log_level(), &Some("DEBUG".to_string()));
    assert_eq!(log.log_dir(), &None);
}

fn payload(data: Vec<u8>) -> MessagePayload {
    MessagePayload::new(
        NetAddress::IpV4([1, 2, 3, 4], 5),
        NetAddress::Domain("t".to_string(), 6),
        PayloadType::AgentPayload(AgentMessagePayloadTypeValue::TcpData),
        data,
    )
}

#[test]
fn writer_builds_one_message_per_payload() {
    let messages = MessageFramedWriter::build_messages(
        Some(vec![payload(vec![1]), payload(vec![2, 3])]),
        Some("ref".to_string()),
        None,
        "user".to_string(),
        PayloadEncryptionType::Blowfish(vec![1, 2, 3, 4]),
    );
    assert_eq!(messages.len(), 2);
    assert_eq!(messages[0].payload, Some(payload(vec![1]).encode()));
    assert_eq!(messages[1].payload, Some(payload(vec![2, 3]).encode()));
    assert_eq!(messages[1].ref_id, Some("ref".to_string()));
    assert_eq!(messages[0].user_token, "user");
    assert_ne!(messages[0].id, messages[1].id);
    let single = MessageFramedWriter::build_messages(None, None, None, "u".to_string(), PayloadEncryptionType::Plain);
    assert_eq!(single.len(), 1);
    assert_eq!(single[0].payload, None);
}

#[test]
fn reader_turns_events_into_results() {
    assert_eq!(MessageFramedReader::timeout_seconds(None), u64::MAX);
    assert!(matches!(MessageFramedReader::decide(Some(20), ReadEvent::TimedOut), Err(PpaassError::TimeoutError { elapsed: 20 })));
    assert!(matches!(MessageFramedReader::decide(None, ReadEvent::Ended), Ok(None)));
    assert!(matches!(MessageFramedReader::decide(None, ReadEvent::Failed(PpaassError::CodecError)), Err(PpaassError::CodecError)));
    let message = Message::new("id".to_string(), None, None, "u".to_string(), PayloadEncryptionType::Plain, Some(payload(vec![9]).encode()));
    let content = MessageFramedReader::decide(Some(1), ReadEvent::Received(message)).unwrap().unwrap();
    assert_eq!(content.message_id, "id");
    assert_eq!(content.user_token, "u");
    assert_eq!(content.message_payload.unwrap().data, vec![9]);
    let broken = Message::new("id".to_string(), None, None, "u".to_string(), PayloadEncryptionType::Plain, Some(vec![0xff]));
    assert!(matches!(MessageFramedReader::read_content(broken), Err(PpaassError::CodecError)));
}

#[test]
fn selector_chooses_blowfish() {
    let result = PayloadEncryptionTypeSelector::select(PayloadEncryptionTypeSelectRequest {
        user_token: "u".to_string(),
        encryption_token: vec![1, 2, 3, 4],
    })
    .unwrap();
    assert_eq!(result.user_token, "u");
    assert!(matches!(result.payload_encryption_type, PayloadEncryptionType::Blowfish(ref t) if *t == vec![1, 2, 3, 4]));
}
