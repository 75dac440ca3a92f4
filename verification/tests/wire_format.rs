use ppaass::address::NetAddress;
use ppaass::message::Message;
use ppaass::error::PpaassError;
use ppaass::payload::{AgentMessagePayloadTypeValue, MessagePayload, PayloadEncryptionType, PayloadType, ProxyMessagePayloadTypeValue};
use ppaass::wire::{drop_front, get_u16, get_u32, get_u64, put_u16, put_u32, put_u64};

#[test]
fn big_endian_integers_round_trip() {
    let mut buf = Vec::new();
    put_u16(&mut buf, 0x1234);
    put_u32(&mut buf, 0xdeadbeef);
    put_u64(&mut buf, 0x0102030405060708);
    assert_eq!(buf, vec![0x12, 0x34, 0xde, 0xad, 0xbe, 0xef, 1, 2, 3, 4, 5, 6, 7, 8]);
    assert_eq!(get_u16(&buf, 0), 0x1234);
    assert_eq!(get_u32(&buf, 2), 0xdeadbeef);
    assert_eq!(get_u64(&buf, 6), 0x0102030405060708);
}

#[test]
fn drop_front_keeps_the_tail() {
    let mut buf = vec![1u8, 2, 3, 4, 5];
    drop_front(&mut buf, 2);
    assert_eq!(buf, vec![3, 4, 5]);
    drop_front(&mut buf, 3);
    assert!(buf.is_empty());
}

#[test]
fn net_address_wire_forms() {
    let v4 = NetAddress::IpV4([192, 168, 1, 2], 8080);
    assert_eq!(v4.encode(), vec![0, 192, 168, 1, 2, 0x1f, 0x90]);
    let domain = NetAddress::Domain("ab".to_string(), 443);
    assert_eq!(domain.encode(), vec![2, 0, 0, 0, 2, b'a', b'b', 0x01, 0xbb]);
    let v6 = NetAddress::IpV6([0u8, 1, 2, 3, 4, 5, 6, 7, 8, 9, 10, 11, 12, 13, 14, 15], 1);
    let bytes = v6.encode();
    assert_eq!(bytes.len(), 19);
    assert_eq!(bytes[0], 1);
    match NetAddress::decode(&bytes) {
        Ok(NetAddress::IpV6(ip, port)) => {
            assert_eq!(ip, [0u8, 1, 2, 3, 4, 5, 6, 7, 8, 9, 10, 11, 12, 13, 14, 15]);
            assert_eq!(port, 1);
        },
        other => panic!("unexpected {:?}", other),
    }
}

#[test]
fn net_address_read_back() {
    let domain = NetAddress::Domain("example.com".to_string(), 80);
    let mut bytes = domain.encode();
    bytes.extend_from_slice(&[9, 9, 9]);
    match NetAddress::decode_at(&bytes, 0) {
        Ok((NetAddress::Domain(host, port), next)) => {
            assert_eq!(host, "example.com");
            assert_eq!(port, 80);
            assert_eq!(next, 1 + 4 + 11 + 2);
        },
        other => panic!("unexpected {:?}", other),
    }
}

#[test]
fn net_address_rejects_bad_bytes() {
    assert!(NetAddress::decode(&[]).is_err());
    assert!(NetAddress::decode(&[0, 1, 2, 3]).is_err());
    assert!(NetAddress::decode(&[7, 0, 0, 0, 0, 0, 0]).is_err());
    assert!(NetAddress::decode(&[2, 0, 0, 0, 5, b'a', 0, 0]).is_err());
    assert!(NetAddress::decode(&[2, 0, 0, 0, 1, 0xff, 0, 0]).is_err());
}

#[test]
fn payload_type_bytes() {
    assert_eq!(PayloadType::AgentPayload(AgentMessagePayloadTypeValue::TcpConnect).to_byte(), 110);
    assert_eq!(PayloadType::AgentPayload(AgentMessagePayloadTypeValue::UdpData).to_byte(), 121);
    assert_eq!(PayloadType::ProxyPayload(ProxyMessagePayloadTypeValue::TcpConnectFail).to_byte(), 211);
    assert_eq!(PayloadType::ProxyPayload(ProxyMessagePayloadTypeValue::UdpData).to_byte(), 224);
    assert!(matches!(
        PayloadType::from_byte(223),
        Ok(PayloadType::ProxyPayload(ProxyMessagePayloadTypeValue::UdpDataRelayFail))
    ));
    assert!(PayloadType::from_byte(0).is_err());
    assert!(PayloadType::from_byte(112).is_err());
}

#[test]
fn encryption_type_wire_forms() {
    assert_eq!(PayloadEncryptionType::Plain.encode(), vec![0, 0, 0, 0, 0]);
    let blowfish = PayloadEncryptionType::Blowfish(vec![7, 8]);
    let bytes = blowfish.encode();
    assert_eq!(bytes, vec![1, 0, 0, 0, 2, 7, 8]);
    assert!(matches!(PayloadEncryptionType::decode(&bytes), Ok(PayloadEncryptionType::Blowfish(t)) if t == vec![7, 8]));
    assert!(matches!(PayloadEncryptionType::decode(&[2, 0, 0, 0, 1, 5]), Ok(PayloadEncryptionType::Aes(t)) if t == vec![5]));
    assert!(PayloadEncryptionType::decode(&[3, 0, 0, 0, 0]).is_err());
    assert!(PayloadEncryptionType::decode(&[1, 0, 0, 0, 4, 1]).is_err());
}

#[test]
fn message_payload_round_trip() {
    let payload = MessagePayload::new(
        NetAddress::IpV4([10, 0, 0, 1], 1000),
        NetAddress::Domain("host".to_string(), 443),
        PayloadType::AgentPayload(AgentMessagePayloadTypeValue::TcpData),
        vec![1, 2, 3],
    );
    let bytes = payload.encode();
    assert_eq!(bytes[0], 111);
    let back = MessagePayload::decode(&bytes).unwrap();
    assert!(matches!(back.source_address, NetAddress::IpV4([10, 0, 0, 1], 1000)));
    assert!(matches!(back.target_address, NetAddress::Domain(ref h, 443) if h == "host"));
    assert!(matches!(back.payload_type, PayloadType::AgentPayload(AgentMessagePayloadTypeValue::TcpData)));
    assert_eq!(back.data, vec![1, 2, 3]);
    assert!(MessagePayload::decode(&bytes[..bytes.len() - 1]).is_err());
}

#[test]
fn message_round_trip_normalizes() {
    let message = Message::new(
        "id-1".to_string(),
        None,
        Some("conn".to_string()),
        "user".to_string(),
        PayloadEncryptionType::Aes(vec![1; 16]),
        Some(vec![4, 5, 6]),
    );
    let bytes = message.encode();
    assert!(!Message::decode_overruns(&bytes));
    let back = Message::decode(&bytes).unwrap();
    assert_eq!(back.id, "id-1");
    assert_eq!(back.ref_id, Some(String::new()));
    assert_eq!(back.connection_id, Some("conn".to_string()));
    assert_eq!(back.user_token, "user");
    assert!(matches!(back.payload_encryption_type, PayloadEncryptionType::Aes(ref t) if *t == vec![1; 16]));
    assert_eq!(back.payload, Some(vec![4, 5, 6]));
}

#[test]
fn message_empty_payload_reads_back_absent() {
    let message = Message::new("x".to_string(), None, None, "u".to_string(), PayloadEncryptionType::Plain, Some(Vec::new()));
    let back = Message::decode(&message.encode()).unwrap();
    assert_eq!(back.payload, None);
}

#[test]
fn message_exact_bytes() {
    let message = Message::new("a".to_string(), Some("b".to_string()), None, "t".to_string(), PayloadEncryptionType::Plain, None);
    let expected: Vec<u8> = vec![
        0, 0, 0, 1, b'a', 0, 0, 0, 1, b'b', 0, 0, 0, 0, 0, 0, 0, 0, 0, 0, 0, 1, b't', 0, 0, 0, 0, 0, 0, 0, 0, 0, 0, 0, 0, 0,
    ];
    assert_eq!(message.encode(), expected);
}

#[test]
fn message_decode_rejects_and_overruns() {
    assert!(!Message::decode_overruns(&[0, 0]));
    assert!(Message::decode(&[0, 0]).is_err());
    assert!(Message::decode_overruns(&[0, 0, 0, 0, 0, 0, 0, 0, 1]));
    assert!(!Message::decode_overruns(&[0, 0, 0, 0, 0, 0, 0, 0, 1, 2, 3, 4]));
    assert!(Message::decode(&[0, 0, 0, 0, 0, 0, 0, 0, 0, 0, 0, 0]).is_err());
}

#[test]
fn random_ids_are_dashless_uuids() {
    let m = Message::new_random_id(None, None, "u".to_string(), PayloadEncryptionType::Plain, None);
    assert_eq!(m.id.len(), 32);
    assert!(m.id.chars().all(|c| c.is_ascii_hexdigit() && !c.is_ascii_uppercase()));
    let other = ppaass::text::generate_uuid();
    assert_ne!(m.id, other);
}

#[test]
fn message_cut_short_is_refused() {
    let message = Message::new(
        "id-2".to_string(),
        Some("ref".to_string()),
        None,
        "user".to_string(),
        PayloadEncryptionType::Blowfish(vec![9; 8]),
        Some(vec![1, 2, 3]),
    );
    let bytes = message.encode();
    let mut overrunning = 0;
    for k in 0..bytes.len() {
        let cut = &bytes[..k];
        if Message::decode_overruns(cut) {
            overrunning += 1;
            continue;
        }
        assert!(matches!(Message::decode(cut), Err(PpaassError::CodecError)), "cut at {}", k);
    }
    assert_eq!(overrunning, 4);
    assert!(Message::decode(&bytes).is_ok());
}
