use std::sync::Arc;

use ppaass::codec::{DecodeStatus, MessageCodec};
use ppaass::crypto::RsaCrypto;
use ppaass::fetcher::{AgentRsaCryptoFetcher, ProxyRsaCryptoFetcher};
use ppaass::error::PpaassError;
use ppaass::message::Message;
use ppaass::payload::PayloadEncryptionType;
use rsa::pkcs8::{EncodePrivateKey, EncodePublicKey, LineEnding};

fn new_crypto() -> RsaCrypto {
    let private_key = rsa::RsaPrivateKey::new(&mut rand::rngs::OsRng, 1024).unwrap();
    let public_key = rsa::RsaPublicKey::from(&private_key);
    let private_pem = private_key.to_pkcs8_pem(LineEnding::LF).unwrap().to_string();
    let public_pem = public_key.to_public_key_pem(LineEnding::LF).unwrap();
    RsaCrypto::new(&public_pem, &private_pem).unwrap()
}

const FLAG: &[u8] = b"__PPAASS__";

#[test]
fn encode_frames_a_message_without_payload() {
    let mut codec = MessageCodec::new(false, Arc::new(ProxyRsaCryptoFetcher::new()));
    let message = Message::new("m".to_string(), None, None, "u".to_string(), PayloadEncryptionType::Plain, None);
    let body = message.encode();
    let mut dst = Vec::new();
    assert!(matches!(codec.encode(message, &mut dst), Some(Ok(()))));
    let mut expected = FLAG.to_vec();
    expected.push(0);
    expected.extend_from_slice(&(body.len() as u64).to_be_bytes());
    expected.extend_from_slice(&body);
    assert_eq!(dst, expected);
}

#[test]
fn encode_needs_a_crypto_for_a_payload() {
    let mut codec = MessageCodec::new(true, Arc::new(ProxyRsaCryptoFetcher::new()));
    let message = Message::new("m".to_string(), None, None, "u".to_string(), PayloadEncryptionType::Plain, Some(vec![1]));
    let mut dst = Vec::new();
    assert!(matches!(codec.encode(message, &mut dst), Some(Err(PpaassError::CodecError))));
    let mut expected = FLAG.to_vec();
    expected.push(1);
    assert_eq!(dst, expected);
}

#[test]
fn decode_waits_for_a_whole_header_and_body() {
    let mut codec = MessageCodec::new(false, Arc::new(ProxyRsaCryptoFetcher::new()));
    let mut src = FLAG.to_vec();
    assert!(matches!(codec.decode(&mut src), Some(Ok(None))));
    assert_eq!(src.len(), 10);
    src.push(0);
    src.extend_from_slice(&5u64.to_be_bytes());
    src.extend_from_slice(&[1, 2]);
    assert!(matches!(codec.decode(&mut src), Some(Ok(None))));
    assert_eq!(src, vec![1, 2]);
}

#[test]
fn decode_rejects_a_missing_flag() {
    let mut codec = MessageCodec::new(false, Arc::new(ProxyRsaCryptoFetcher::new()));
    let mut src = b"__PPAAXX__".to_vec();
    src.extend_from_slice(&[0; 9]);
    src.push(42);
    assert!(matches!(codec.decode(&mut src), Some(Err(PpaassError::CodecError))));
    assert_eq!(src, vec![0, 0, 0, 0, 0, 0, 0, 0, 0, 42]);
}

#[test]
fn decode_without_crypto_is_a_codec_error() {
    let mut codec = MessageCodec::new(false, Arc::new(ProxyRsaCryptoFetcher::new()));
    let message = Message::new("m".to_string(), None, None, "u".to_string(), PayloadEncryptionType::Plain, None);
    let mut buf = Vec::new();
    assert!(matches!(codec.encode(message, &mut buf), Some(Ok(()))));
    assert!(matches!(codec.decode(&mut buf), Some(Err(PpaassError::CodecError))));
    assert!(buf.is_empty());
}

#[test]
fn decode_reports_a_bad_compressed_body() {
    let mut codec = MessageCodec::new(true, Arc::new(ProxyRsaCryptoFetcher::new()));
    let mut src = FLAG.to_vec();
    src.push(1);
    src.extend_from_slice(&3u64.to_be_bytes());
    src.extend_from_slice(&[0xff, 0xff, 0xff]);
    assert!(matches!(codec.decode(&mut src), Some(Err(PpaassError::IoError { .. }))));
}

#[test]
fn blowfish_message_round_trips_through_the_codec() {
    let fetcher = Arc::new(AgentRsaCryptoFetcher::new(new_crypto()));
    let mut writer = MessageCodec::new(true, fetcher.clone());
    let mut reader = MessageCodec::new(true, fetcher);
    let token = b"0123456789abcdef".to_vec();
    let message = Message::new(
        "id".to_string(),
        Some("ref".to_string()),
        Some("conn".to_string()),
        "user".to_string(),
        PayloadEncryptionType::Blowfish(token),
        Some(b"hello, proxy".to_vec()),
    );
    let mut buf = Vec::new();
    assert!(matches!(writer.encode(message, &mut buf), Some(Ok(()))));
    let plain = Message::new("p".to_string(), None, None, "user".to_string(), PayloadEncryptionType::Plain, Some(vec![9, 8, 7]));
    assert!(matches!(writer.encode(plain, &mut buf), Some(Ok(()))));
    let first = match reader.decode(&mut buf) {
        Some(Ok(Some(m))) => m,
        _ => panic!("first message not decoded"),
    };
    assert_eq!(first.id, "id");
    assert_eq!(first.ref_id, Some("ref".to_string()));
    assert_eq!(first.connection_id, Some("conn".to_string()));
    let mut expected = b"hello, proxy".to_vec();
    expected.extend_from_slice(&[0, 0, 0, 0]);
    assert_eq!(first.payload, Some(expected));
    let second = match reader.decode(&mut buf) {
        Some(Ok(Some(m))) => m,
        _ => panic!("second message not decoded"),
    };
    assert_eq!(second.payload, Some(vec![9, 8, 7]));
    assert!(buf.is_empty());
    assert!(matches!(reader.decode(&mut buf), Some(Ok(None))));
}

#[test]
fn decode_status_starts_before_a_header() {
    assert_eq!(DecodeStatus::Head, DecodeStatus::Head);
    assert_ne!(DecodeStatus::Head, DecodeStatus::Data(true, 3));
}

#[test]
fn encrypting_a_payload_refuses_a_token_too_long_for_the_key() {
    let crypto = new_crypto();
    let token = vec![3u8; 120];
    let message = Message::new("m".to_string(), None, None, "u".to_string(), PayloadEncryptionType::Blowfish(token), Some(vec![1, 2]));
    assert!(matches!(ppaass::codec::encrypt_message_payload(message, &crypto), Some(Err(PpaassError::CodecError))));
    let message = Message::new("m".to_string(), None, None, "u".to_string(), PayloadEncryptionType::Aes(vec![5u8; 16]), Some(vec![1, 2]));
    match ppaass::codec::encrypt_message_payload(message, &crypto) {
        Some(Ok(m)) => match m.payload_encryption_type {
            PayloadEncryptionType::Aes(sealed) => {
                assert_eq!(sealed.len(), 128);
                assert_eq!(crypto.decrypt(&sealed).unwrap(), vec![5u8; 16]);
            }
            _ => panic!("the encryption type changed"),
        },
        _ => panic!("encryption failed"),
    }
}
