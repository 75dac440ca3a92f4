use ppaass::address::NetAddress;
use ppaass::socks5::{
    Protocol, Socks5Addr, Socks5AuthCommandContent, Socks5AuthCommandContentCodec, Socks5AuthCommandResultContent, Socks5AuthMethod,
    Socks5InitCommandContentCodec, Socks5InitCommandResultContent, Socks5InitCommandResultStatus, Socks5InitCommandType,
    Socks5UdpDataCommandContentCodec, Socks5UdpDataCommandResultContent, SwitchClientProtocolDecoder, UdpDiagram,
};
use ppaass::error::PpaassError;

#[test]
fn auth_method_bytes() {
    assert_eq!(Socks5AuthMethod::from_byte(2), Socks5AuthMethod::UsernameAndPassword);
    assert_eq!(Socks5AuthMethod::from_byte(16), Socks5AuthMethod::NoAcceptableMethods);
    assert_eq!(Socks5AuthMethod::from_byte(99), Socks5AuthMethod::NoAuthenticationRequired);
    assert_eq!(Socks5AuthMethod::ReservedForPrivateMethods.to_byte(), 8);
    assert_eq!(Socks5AuthMethod::GssApi.to_byte(), 1);
}

#[test]
fn result_status_bytes() {
    assert_eq!(Socks5InitCommandResultStatus::from_byte(5), Socks5InitCommandResultStatus::ConnectionRefused);
    assert_eq!(Socks5InitCommandResultStatus::from_byte(200), Socks5InitCommandResultStatus::Failure);
    assert_eq!(Socks5InitCommandResultStatus::Unassigned.to_byte(), 9);
    assert_eq!(Socks5InitCommandResultStatus::Succeeded.to_byte(), 0);
}

#[test]
fn init_command_type_bytes() {
    assert_eq!(Socks5InitCommandType::try_from_byte(1).unwrap(), Socks5InitCommandType::Connect);
    assert_eq!(Socks5InitCommandType::try_from_byte(3).unwrap(), Socks5InitCommandType::UdpAssociate);
    assert!(matches!(Socks5InitCommandType::try_from_byte(4), Err(PpaassError::CodecError)));
}

#[test]
fn contents_carry_version_five() {
    let auth = Socks5AuthCommandContent::new(1, vec![Socks5AuthMethod::NoAuthenticationRequired]);
    assert_eq!(auth.version, 5);
    assert_eq!(auth.method_number, 1);
    let answer = Socks5AuthCommandResultContent::new(Socks5AuthMethod::GssApi);
    assert_eq!(answer.version, 5);
    let reply = Socks5InitCommandResultContent::new(Socks5InitCommandResultStatus::Succeeded, None);
    assert_eq!(reply.version, 5);
    let udp = Socks5UdpDataCommandResultContent::new(0, Socks5Addr::IpV4([1, 2, 3, 4], 5), vec![1]);
    assert_eq!(udp.data, vec![1]);
}

#[test]
fn socks5_address_wire_forms() {
    assert_eq!(Socks5Addr::IpV4([127, 0, 0, 1], 1080).encode(), vec![1, 127, 0, 0, 1, 0x04, 0x38]);
    assert_eq!(Socks5Addr::Domain("a.b".to_string(), 80).encode(), vec![3, 3, b'a', b'.', b'b', 0, 80]);
    let bytes = vec![4u8, 0, 0, 0, 0, 0, 0, 0, 0, 0, 0, 0, 0, 0, 0, 0, 1, 0x01, 0xbb, 99];
    match Socks5Addr::decode_at(&bytes, 0) {
        Ok((Socks5Addr::IpV6(ip, port), next)) => {
            assert_eq!(ip[15], 1);
            assert_eq!(port, 443);
            assert_eq!(next, 19);
        },
        other => panic!("unexpected {:?}", other),
    }
    assert!(Socks5Addr::decode_at(&[3, 5, b'a'], 0).is_err());
    assert!(Socks5Addr::decode_at(&[2, 0, 0, 0, 0, 0, 0], 0).is_err());
    assert!(matches!(Socks5Addr::Domain("x".to_string(), 1).to_net_address(), NetAddress::Domain(ref h, 1) if h == "x"));
}

#[test]
fn auth_codec_reads_greetings() {
    let mut codec = Socks5AuthCommandContentCodec;
    let mut src = vec![5u8];
    assert!(matches!(codec.decode(&mut src), Ok(None)));
    let mut src = vec![5u8, 2, 0, 2, 77];
    let greeting = codec.decode(&mut src).unwrap().unwrap();
    assert_eq!(greeting.method_number, 2);
    assert_eq!(greeting.methods, vec![Socks5AuthMethod::NoAuthenticationRequired, Socks5AuthMethod::UsernameAndPassword]);
    assert_eq!(src, vec![77]);
    let mut src = vec![4u8, 1, 0];
    assert!(matches!(codec.decode(&mut src), Err(PpaassError::CodecError)));
    assert_eq!(src, vec![1, 0]);
    let mut dst = Vec::new();
    codec.encode(Socks5AuthCommandResultContent::new(Socks5AuthMethod::NoAuthenticationRequired), &mut dst).unwrap();
    assert_eq!(dst, vec![5, 0]);
}

#[test]
fn init_codec_reads_requests() {
    let mut codec = Socks5InitCommandContentCodec;
    let mut src = vec![5u8, 1, 0];
    assert!(matches!(codec.decode(&mut src), Ok(None)));
    let mut src = vec![5u8, 1, 0, 1, 8, 8, 8, 8, 0, 53];
    let request = codec.decode(&mut src).unwrap().unwrap();
    assert_eq!(request.request_type, Socks5InitCommandType::Connect);
    assert!(matches!(request.dest_address, Socks5Addr::IpV4([8, 8, 8, 8], 53)));
    assert!(src.is_empty());
    let mut src = vec![5u8, 9, 0, 1, 8];
    assert!(matches!(codec.decode(&mut src), Err(PpaassError::CodecError)));
    assert_eq!(src, vec![0, 1, 8]);
    let mut src = vec![5u8, 1, 0, 1, 8];
    assert!(matches!(codec.decode(&mut src), Err(PpaassError::CodecError)));
    assert!(src.is_empty());
    let mut dst = Vec::new();
    let reply = Socks5InitCommandResultContent::new(Socks5InitCommandResultStatus::Succeeded, Some(Socks5Addr::IpV4([1, 1, 1, 1], 2)));
    codec.encode(reply, &mut dst).unwrap();
    assert_eq!(dst, vec![5, 0, 0, 1, 1, 1, 1, 1, 0, 2]);
}

#[test]
fn udp_codec_consumes_everything() {
    let mut codec = Socks5UdpDataCommandContentCodec;
    let mut src: Vec<u8> = Vec::new();
    assert!(matches!(codec.decode(&mut src), Ok(None)));
    let mut src = vec![0u8];
    assert!(matches!(codec.decode(&mut src), Err(PpaassError::CodecError)));
    assert_eq!(src, vec![0]);
    let mut src = vec![0u8, 0, 3, 1, 9, 9, 9, 9, 0, 7, 100, 101];
    let datagram = codec.decode(&mut src).unwrap().unwrap();
    assert_eq!(datagram.frag, 3);
    assert!(matches!(datagram.address, Socks5Addr::IpV4([9, 9, 9, 9], 7)));
    assert!(datagram.data.is_empty());
    assert!(src.is_empty());
    let mut dst = Vec::new();
    codec.encode(Socks5UdpDataCommandResultContent::new(1, Socks5Addr::IpV4([2, 2, 2, 2], 3), vec![42]), &mut dst).unwrap();
    assert_eq!(dst, vec![0, 0, 1, 1, 2, 2, 2, 2, 0, 3, 42]);
}

#[test]
fn udp_diagram_round_trip() {
    let diagram = UdpDiagram { source_port: 1, target_port: 2, length: 3, checksum: 4, data: vec![7, 8, 9] };
    let bytes = diagram.to_bytes();
    assert_eq!(bytes, vec![0, 1, 0, 2, 0, 3, 0, 4, 7, 8, 9]);
    let back = UdpDiagram::from_bytes(&bytes);
    assert_eq!((back.source_port, back.target_port, back.length, back.checksum), (1, 2, 3, 4));
    assert_eq!(back.data, vec![7, 8, 9]);
    let longer = UdpDiagram::from_bytes(&[0, 1, 0, 2, 0, 1, 0, 4, 7, 8, 9]);
    assert_eq!(longer.data, vec![7]);
}

#[test]
fn protocol_switch() {
    let mut decoder = SwitchClientProtocolDecoder;
    let mut empty: Vec<u8> = Vec::new();
    assert!(matches!(decoder.decode(&mut empty), Ok(None)));
    let mut socks5 = vec![5u8, 1, 0];
    assert_eq!(decoder.decode(&mut socks5).unwrap(), Some(Protocol::Socks5));
    assert_eq!(socks5, vec![5, 1, 0]);
    let mut socks4 = vec![4u8];
    assert!(matches!(decoder.decode(&mut socks4), Err(PpaassError::CodecError)));
    let mut http = b"GET / HTTP/1.1".to_vec();
    assert_eq!(decoder.decode(&mut http).unwrap(), Some(Protocol::Http));
}

#[test]
fn address_texts() {
    assert_eq!(Socks5Addr::IpV4([192, 168, 0, 10], 1080).to_string(), "192.168.0.10:1080");
    assert_eq!(Socks5Addr::Domain("example.com".to_string(), 0).to_string(), "example.com:0");
    let mut ip = [0u8; 16];
    ip[0] = 0x20;
    ip[1] = 0x01;
    ip[2] = 0x0d;
    ip[3] = 0xb8;
    ip[15] = 1;
    assert_eq!(NetAddress::IpV6(ip, 443).to_string(), "2001:db8:0:0:0:0:0:1:443");
    assert_eq!(NetAddress::IpV4([0, 0, 0, 0], 65535).to_string(), "0.0.0.0:65535");
}
