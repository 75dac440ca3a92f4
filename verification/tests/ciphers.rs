use ppaass::crypto::{decrypt_with_aes, decrypt_with_blowfish, encrypt_with_aes, encrypt_with_blowfish, RsaCrypto};
use ppaass::error::PpaassError;
use rsa::pkcs8::{EncodePrivateKey, EncodePublicKey, LineEnding};

#[test]
fn blowfish_round_trip_pads_with_zeros() {
    let key = b"secret-key";
    let data = b"0123456789".to_vec();
    let encrypted = encrypt_with_blowfish(key, &data);
    assert_eq!(encrypted.len(), 16);
    assert_ne!(&encrypted[..10], &data[..]);
    let decrypted = decrypt_with_blowfish(key, &encrypted);
    let mut expected = data.clone();
    expected.extend_from_slice(&[0; 6]);
    assert_eq!(decrypted, expected);
}

#[test]
fn blowfish_of_nothing_is_nothing() {
    assert!(encrypt_with_blowfish(b"abcd", &[]).is_empty());
    assert!(decrypt_with_blowfish(b"abcd", &[]).is_empty());
}

#[test]
fn blowfish_whole_blocks_round_trip_exactly() {
    let key = b"0123456789abcdef0123456789abcdef0123456789abcdef01234567";
    let data: Vec<u8> = (0u8..24).collect();
    let encrypted = encrypt_with_blowfish(key, &data);
    assert_eq!(encrypted.len(), 24);
    assert_eq!(decrypt_with_blowfish(key, &encrypted), data);
}

#[test]
fn aes_short_chunk_round_trips_padded() {
    let key = [7u8; 32];
    let data = b"short".to_vec();
    let encrypted = encrypt_with_aes(&key, &data);
    assert_eq!(encrypted.len(), 16);
    let mut expected = data.clone();
    expected.extend_from_slice(&[0; 11]);
    assert_eq!(decrypt_with_aes(&key, &encrypted), expected);
}

#[test]
fn aes_full_chunk_is_encrypted_as_zeros() {
    let key = [9u8; 32];
    let first: Vec<u8> = (1u8..=16).collect();
    let second = vec![0xaau8; 16];
    assert_eq!(encrypt_with_aes(&key, &first), encrypt_with_aes(&key, &second));
    let mut data = first.clone();
    data.extend_from_slice(b"tail");
    let encrypted = encrypt_with_aes(&key, &data);
    assert_eq!(encrypted.len(), 32);
    let decrypted = decrypt_with_aes(&key, &encrypted);
    assert_eq!(&decrypted[..16], &[0u8; 16]);
    assert_eq!(&decrypted[16..20], b"tail");
    assert_eq!(&decrypted[20..], &[0u8; 12]);
}

#[test]
fn rsa_crypto_refuses_bad_keys() {
    assert!(matches!(RsaCrypto::new("not a key", "not a key either"), Err(PpaassError::CodecError)));
}

#[test]
fn rsa_encryption_fills_the_modulus_and_refuses_long_targets() {
    let private_key = rsa::RsaPrivateKey::new(&mut rand::rngs::OsRng, 1024).unwrap();
    let public_key = rsa::RsaPublicKey::from(&private_key);
    let private_pem = private_key.to_pkcs8_pem(LineEnding::LF).unwrap().to_string();
    let public_pem = public_key.to_public_key_pem(LineEnding::LF).unwrap();
    let crypto = RsaCrypto::new(&public_pem, &private_pem).unwrap();
    assert_eq!(crypto.public_key_size(), 128);
    let secret = crypto.encrypt(b"token").unwrap();
    assert_eq!(secret.len(), 128);
    assert_eq!(crypto.decrypt(&secret).unwrap(), b"token".to_vec());
    let longest = vec![7u8; 117];
    let sealed = crypto.encrypt(&longest).unwrap();
    assert_eq!(sealed.len(), 128);
    assert_eq!(crypto.decrypt(&sealed).unwrap(), longest);
    assert!(matches!(crypto.encrypt(&[7u8; 118]), Err(PpaassError::CodecError)));
}

#[test]
fn rsa_crypto_refuses_a_private_key_with_a_prime_of_one() {
    let private_key = rsa::RsaPrivateKey::new(&mut rand::rngs::OsRng, 1024).unwrap();
    let public_pem = rsa::RsaPublicKey::from(&private_key).to_public_key_pem(LineEnding::LF).unwrap();
    let broken = "SECRET-REDACTED\n";
    assert!(matches!(RsaCrypto::new(&public_pem, broken), Err(PpaassError::CodecError)));
    let private_pem = private_key.to_pkcs8_pem(LineEnding::LF).unwrap().to_string();
    assert!(RsaCrypto::new(&public_pem, &private_pem).is_ok());
}

#[test]
fn generated_agent_keys_form_a_working_pair() {
    let files = ppaass::crypto::generate_agent_key_pairs("keys", "alice").unwrap();
    assert_eq!(files.private_key_path, "keys/alice/AgentPrivateKey.pem");
    assert_eq!(files.public_key_path, "keys/alice/AgentPublicKey.pem");
    let crypto = RsaCrypto::new(&files.public_key_pem, &files.private_key_pem).unwrap();
    assert_eq!(crypto.public_key_size(), 256);
    let longest = vec![42u8; 245];
    let sealed = crypto.encrypt(&longest).unwrap();
    assert_eq!(sealed.len(), 256);
    assert_eq!(crypto.decrypt(&sealed).unwrap(), longest);
    assert!(matches!(crypto.encrypt(&[42u8; 246]), Err(PpaassError::CodecError)));
}
