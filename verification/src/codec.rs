//! The message codec: frames messages on a byte stream (flag, compression
//! byte, body length, body), compresses bodies with LZ4 and encrypts payloads.
use vstd::prelude::*;

use std::sync::Arc;

use crate::crypto::{
    aes_input_block, spec_map_chunks, zero_pad,
    aes_key_len_ok, decrypt_with_aes, decrypt_with_blowfish, encrypt_with_aes, encrypt_with_blowfish,
    rsa_key_pair, rsa_pkcs1v15_decrypt, rsa_public_key_size, spec_aes_decrypt, spec_aes_encrypt, spec_blowfish_decrypt, spec_blowfish_encrypt,
    RsaCrypto, RsaCryptoFetcher,
};
use crate::error::PpaassError;
use crate::message::{
    lemma_message_roundtrip, message_wf, spec_decode_message, spec_encode_message, spec_message_overruns,
    spec_normalize_message, Message, SpecMessage,
};
use crate::payload::{PayloadEncryptionType, SpecEncryptionType};
use crate::wire::{be_u64, be_u64_at, copy_range, drop_front, get_u64, lemma_read_u64, put_slice, put_u64};

verus! {

/// The bytes every frame starts with: `__PPAASS__`.
pub open spec fn ppaass_flag() -> Seq<u8> {
    seq![95u8, 95u8, 80u8, 80u8, 65u8, 65u8, 83u8, 83u8, 95u8, 95u8]
}

/// Length of a frame header: the flag, the compression byte, the 64-bit body length.
pub const HEADER_LENGTH: usize = 19;

/// What `lz4::block::compress` with the default mode and the size prefixed
/// gives for `src`, if it succeeds.
pub uninterp spec fn lz4_compress_block(src: Seq<u8>) -> Option<Seq<u8>>;

/// What `lz4::block::decompress` without a given size (read from the prefix)
/// gives for `src`, if it succeeds.
pub uninterp spec fn lz4_decompress_block(src: Seq<u8>) -> Option<Seq<u8>>;

/// `lz4::block::compress(src, None, true)`: the LZ4 block of `src` with its
/// 4-byte size prefix; decompressing it gives `src` back.
#[verifier::external_body]
fn lz4_compress(src: &[u8]) -> (res: Result<Vec<u8>, std::io::Error>)
    ensures
        match res {
            Ok(v) => lz4_compress_block(src@) == Some(v@) && lz4_decompress_block(v@) == Some(src@),
            Err(_) => lz4_compress_block(src@) is None,
        },
{
    lz4::block::compress(src, None, true)
}

/// `lz4::block::decompress(src, None)`: the bytes of a size-prefixed LZ4 block.
#[verifier::external_body]
fn lz4_decompress(src: &[u8]) -> (res: Result<Vec<u8>, std::io::Error>)
    ensures
        match res {
            Ok(v) => lz4_decompress_block(src@) == Some(v@),
            Err(_) => lz4_decompress_block(src@) is None,
        },
{
    lz4::block::decompress(src, None)
}

/// Where the decoder stands: before a frame header, or inside a frame whose
/// header said whether the body is compressed and how long it is.
#[derive(Debug, Clone, Copy, PartialEq, Eq, Structural)]
pub enum DecodeStatus {
    Head,
    Data(bool, u64),
}

/// What the decoder finds in its buffer.
pub enum FrameScan {
    /// Fewer bytes than a header: wait for more, the buffer unchanged.
    Wait,
    /// The bytes do not start with the flag: the flag's bytes are dropped.
    BadFlag,
    /// A header (read now or before) whose body has not fully arrived: the
    /// compression flag, the body length, and the buffer after the header.
    Partial(bool, u64, Seq<u8>),
    /// A whole body: the compression flag, the body length, the body, and the
    /// buffer after it.
    Body(bool, u64, Seq<u8>, Seq<u8>),
}

/// What the decoder finds after a header that announced `length` body bytes:
/// the whole body and what follows it, or the bytes so far.
pub open spec fn spec_scan_body(compressed: bool, length: u64, rest: Seq<u8>) -> FrameScan {
    if rest.len() < length as usize {
        FrameScan::Partial(compressed, length, rest)
    } else {
        FrameScan::Body(compressed, length, rest.take(length as usize as int), rest.skip(length as usize as int))
    }
}

/// What the decoder finds in `s` when it stands at `status`.
pub open spec fn spec_scan_frame(status: DecodeStatus, s: Seq<u8>) -> FrameScan {
    match status {
        DecodeStatus::Head => if s.len() < 19 {
            FrameScan::Wait
        } else if s.take(10) != ppaass_flag() {
            FrameScan::BadFlag
        } else {
            spec_scan_body(s[10] == 1, be_u64_at(s, 11), s.skip(19))
        },
        DecodeStatus::Data(c, l) => spec_scan_body(c, l, s),
    }
}

/// The message bytes a frame body carries: decompressed when the frame says so.
pub open spec fn spec_frame_raw(compressed: bool, body: Seq<u8>) -> Option<Seq<u8>> {
    if compressed {
        lz4_decompress_block(body)
    } else {
        Some(body)
    }
}

/// What decrypting a message's payload under a private key comes to.
pub enum DecryptOutcome {
    /// The message with its payload decrypted.
    Decrypted(SpecMessage),
    /// The encryption token does not decrypt under the key.
    Refused,
    /// The decrypted token's length does not fit the cipher, whose key
    /// schedule would panic.
    Unfit,
}

/// What decrypting the payload of `pm` under the private key read from `pem`
/// comes to: the token `pm` carries, RSA-decrypted, is the Blowfish or AES
/// key of the payload. A plain message, or one without payload, stays the same.
pub open spec fn spec_decrypt_outcome(pem: Seq<char>, pm: SpecMessage) -> DecryptOutcome {
    match (pm.payload_encryption_type, pm.payload) {
        (SpecEncryptionType::Blowfish(tok), Some(content)) => match rsa_pkcs1v15_decrypt(pem, tok) {
            None => DecryptOutcome::Refused,
            Some(key) => if 4 <= key.len() <= 56 {
                DecryptOutcome::Decrypted(SpecMessage { payload: Some(spec_blowfish_decrypt(key, content)), ..pm })
            } else {
                DecryptOutcome::Unfit
            },
        },
        (SpecEncryptionType::Aes(tok), Some(content)) => match rsa_pkcs1v15_decrypt(pem, tok) {
            None => DecryptOutcome::Refused,
            Some(key) => if aes_key_len_ok(key.len()) {
                DecryptOutcome::Decrypted(SpecMessage { payload: Some(spec_aes_decrypt(key, content)), ..pm })
            } else {
                DecryptOutcome::Unfit
            },
        },
        _ => DecryptOutcome::Decrypted(pm),
    }
}

/// Whether the token of an encryption type fits its cipher: Blowfish takes 4
/// to 56 bytes, AES 16, 24 or 32.
pub open spec fn token_fits(e: SpecEncryptionType) -> bool {
    match e {
        SpecEncryptionType::Blowfish(tok) => 4 <= tok.len() <= 56,
        SpecEncryptionType::Aes(tok) => aes_key_len_ok(tok.len()),
        SpecEncryptionType::Plain => true,
    }
}

/// A message that travels as it is: plain, or without payload.
pub open spec fn spec_payload_plain(m: SpecMessage) -> bool {
    m.payload is None || m.payload_encryption_type is Plain
}

/// `m2` is `m` with its payload encrypted under the token `m` carries, and
/// that token replaced by some other bytes (its RSA encryption, which is
/// random); a message that travels as it is stays the same.
pub open spec fn spec_payload_encrypted(m: SpecMessage, m2: SpecMessage) -> bool {
    match (m.payload_encryption_type, m.payload) {
        (SpecEncryptionType::Blowfish(tok), Some(content)) => exists|ct: Seq<u8>|
            m2 == (SpecMessage {
                payload_encryption_type: SpecEncryptionType::Blowfish(ct),
                payload: Some(spec_blowfish_encrypt(tok, content)),
                ..m
            }),
        (SpecEncryptionType::Aes(tok), Some(content)) => exists|ct: Seq<u8>|
            m2 == (SpecMessage {
                payload_encryption_type: SpecEncryptionType::Aes(ct),
                payload: Some(spec_aes_encrypt(tok, content)),
                ..m
            }),
        _ => m2 == m,
    }
}

/// What decrypting gives back of an encrypted payload `content` under its own
/// token: Blowfish gives it zero-padded to 8-byte blocks; AES gives the blocks
/// it encrypted (see [`aes_input_block`]); a plain payload is itself.
pub open spec fn spec_payload_recovered(e: SpecEncryptionType, content: Seq<u8>) -> Seq<u8> {
    match e {
        SpecEncryptionType::Blowfish(_) => spec_map_chunks(content, 8, |c: Seq<u8>| zero_pad(c, 8)),
        SpecEncryptionType::Aes(_) => spec_map_chunks(content, 16, |c: Seq<u8>| aes_input_block(c)),
        SpecEncryptionType::Plain => content,
    }
}

/// The cipher of `m` undoes itself on `m`'s payload as [`spec_payload_recovered`]
/// says (for AES, under a 32-byte token), and a payload that is not empty
/// stays not empty; a plain message or one without payload has nothing to undo.
pub open spec fn spec_cipher_inverts(m: SpecMessage) -> bool {
    match (m.payload_encryption_type, m.payload) {
        (SpecEncryptionType::Blowfish(tok), Some(content)) => {
            &&& spec_blowfish_decrypt(tok, spec_blowfish_encrypt(tok, content)) == spec_payload_recovered(
                m.payload_encryption_type,
                content,
            )
            &&& content.len() > 0 ==> spec_blowfish_encrypt(tok, content).len() > 0
        },
        (SpecEncryptionType::Aes(tok), Some(content)) => {
            &&& tok.len() == 32 ==> spec_aes_decrypt(tok, spec_aes_encrypt(tok, content)) == spec_payload_recovered(
                m.payload_encryption_type,
                content,
            )
            &&& content.len() > 0 ==> spec_aes_encrypt(tok, content).len() > 0
        },
        _ => true,
    }
}

/// Decrypts the payload of `message` with the token that `rsa_crypto` decrypts
/// from the message's encryption type. `None` when that token's length does
/// not fit the cipher (the cipher's key schedule would panic); `CodecError`
/// when the token does not decrypt. A plain message, or one without payload,
/// comes back unchanged.
pub fn decrypt_message_payload(message: Message, rsa_crypto: &RsaCrypto) -> (res: Option<Result<Message, PpaassError>>)
    ensures
        match spec_decrypt_outcome(rsa_crypto@.1, message@) {
            DecryptOutcome::Decrypted(m2) => res matches Some(Ok(m)) && m@ == m2,
            DecryptOutcome::Refused => res matches Some(Err(e)) && e is CodecError,
            DecryptOutcome::Unfit => res is None,
        },
{
    let mut message = message;
    let ghost pm = message@;
    let new_payload = match (&message.payload_encryption_type, &message.payload) {
        (PayloadEncryptionType::Blowfish(token), Some(content)) => {
            let key = match rsa_crypto.decrypt(token.as_slice()) {
                Ok(k) => k,
                Err(e) => return Some(Err(e)),
            };
            if key.len() < 4 || key.len() > 56 {
                return None;
            }
            Some(decrypt_with_blowfish(key.as_slice(), content.as_slice()))
        },
        (PayloadEncryptionType::Aes(token), Some(content)) => {
            let key = match rsa_crypto.decrypt(token.as_slice()) {
                Ok(k) => k,
                Err(e) => return Some(Err(e)),
            };
            if key.len() != 16 && key.len() != 24 && key.len() != 32 {
                return None;
            }
            Some(decrypt_with_aes(key.as_slice(), content.as_slice()))
        },
        _ => None,
    };
    match new_payload {
        Some(p) => {
            message.payload = Some(p);
        },
        None => {},
    }
    Some(Ok(message))
}

/// The token bytes an encryption type carries; none for plain.
pub open spec fn spec_token(e: SpecEncryptionType) -> Seq<u8> {
    match e {
        SpecEncryptionType::Blowfish(tok) => tok,
        SpecEncryptionType::Aes(tok) => tok,
        SpecEncryptionType::Plain => Seq::empty(),
    }
}

/// Whether the payload of `m` can be encrypted under the public key read
/// from `public_pem`: it travels as it is, or the key's modulus is at least 11
/// bytes, the token at most the modulus size less 11 bytes, and the token fits
/// its cipher.
pub open spec fn spec_encryptable(public_pem: Seq<char>, m: SpecMessage) -> bool {
    let size = rsa_public_key_size(public_pem);
    let tok = spec_token(m.payload_encryption_type);
    spec_payload_plain(m) || (size >= 11 && tok.len() + 11 <= size && token_fits(m.payload_encryption_type))
}

/// Whether encrypting the payload of `m` under the public key read from
/// `public_pem` would panic: the key's modulus is under 11 bytes, or RSA takes
/// the token but the token does not fit its cipher.
pub open spec fn spec_encryption_panics(public_pem: Seq<char>, m: SpecMessage) -> bool {
    let size = rsa_public_key_size(public_pem);
    let tok = spec_token(m.payload_encryption_type);
    !spec_payload_plain(m) && (size < 11 || (tok.len() + 11 <= size && !token_fits(m.payload_encryption_type)))
}

/// Whether RSA under the public key read from `public_pem` refuses the token
/// of `m`: it is longer than the modulus size less 11 bytes.
pub open spec fn spec_encryption_refused(public_pem: Seq<char>, m: SpecMessage) -> bool {
    let size = rsa_public_key_size(public_pem);
    !spec_payload_plain(m) && size >= 11 && spec_token(m.payload_encryption_type).len() + 11 > size
}

/// The token `m2` carries is the token of `m` sealed under the public key
/// read from `public_pem`: as long as the modulus, and decrypting back into
/// the token of `m` under the private half of that key. Nothing is sealed for
/// a message that travels as it is.
pub open spec fn spec_token_sealed(public_pem: Seq<char>, m: SpecMessage, m2: SpecMessage) -> bool {
    spec_payload_plain(m) || {
        &&& spec_token(m2.payload_encryption_type).len() == rsa_public_key_size(public_pem)
        &&& forall|private_pem: Seq<char>| #[trigger]
            rsa_key_pair(public_pem, private_pem) ==> rsa_pkcs1v15_decrypt(
                private_pem,
                spec_token(m2.payload_encryption_type),
            ) == Some(spec_token(m.payload_encryption_type))
    }
}

/// Encrypts the payload of `message` with its own token and replaces the
/// token by its RSA encryption under `rsa_crypto`'s public key (see
/// [`spec_payload_encrypted`] and [`spec_token_sealed`]). `None` when that
/// would panic (see [`spec_encryption_panics`]); `CodecError` when RSA refuses
/// the token. A plain message, or one without payload, comes back unchanged.
pub fn encrypt_message_payload(message: Message, rsa_crypto: &RsaCrypto) -> (res: Option<Result<Message, PpaassError>>)
    ensures
        match res {
            None => spec_encryption_panics(rsa_crypto@.0, message@),
            Some(Err(e)) => spec_encryption_refused(rsa_crypto@.0, message@) && e is CodecError,
            Some(Ok(m)) => spec_payload_encrypted(message@, m@) && spec_cipher_inverts(message@) && spec_encryptable(
                rsa_crypto@.0,
                message@,
            ) && spec_token_sealed(rsa_crypto@.0, message@, m@),
        },
{
    let ghost pm = message@;
    let Message { id, ref_id, connection_id, user_token, payload_encryption_type, payload } = message;
    match (payload_encryption_type, payload) {
        (PayloadEncryptionType::Blowfish(token), Some(content)) => {
            if rsa_crypto.public_key_size() < 11 {
                return None;
            }
            let encrypted_token = match rsa_crypto.encrypt(token.as_slice()) {
                Ok(t) => t,
                Err(e) => return Some(Err(e)),
            };
            if token.len() < 4 || token.len() > 56 {
                assert(pm.payload_encryption_type == SpecEncryptionType::Blowfish(token@));
                assert(pm.payload is Some);
                return None;
            }
            let encrypted = encrypt_with_blowfish(token.as_slice(), content.as_slice());
            let ghost ct = encrypted_token@;
            let m = Message::new(id, ref_id, connection_id, user_token, PayloadEncryptionType::Blowfish(encrypted_token), Some(encrypted));
            assert(m@ == (SpecMessage { payload_encryption_type: SpecEncryptionType::Blowfish(ct), payload: Some(m@.payload->0), ..pm }));
            Some(Ok(m))
        },
        (PayloadEncryptionType::Aes(token), Some(content)) => {
            if rsa_crypto.public_key_size() < 11 {
                return None;
            }
            let encrypted_token = match rsa_crypto.encrypt(token.as_slice()) {
                Ok(t) => t,
                Err(e) => return Some(Err(e)),
            };
            if token.len() != 16 && token.len() != 24 && token.len() != 32 {
                assert(pm.payload_encryption_type == SpecEncryptionType::Aes(token@));
                assert(pm.payload is Some);
                return None;
            }
            let encrypted = encrypt_with_aes(token.as_slice(), content.as_slice());
            let ghost ct = encrypted_token@;
            let m = Message::new(id, ref_id, connection_id, user_token, PayloadEncryptionType::Aes(encrypted_token), Some(encrypted));
            assert(m@ == (SpecMessage { payload_encryption_type: SpecEncryptionType::Aes(ct), payload: Some(m@.payload->0), ..pm }));
            Some(Ok(m))
        },
        (payload_encryption_type, payload) => Some(Ok(Message::new(id, ref_id, connection_id, user_token, payload_encryption_type, payload))),
    }
}

/// The bytes of a frame: the flag, the compression byte, the body length and the body.
pub open spec fn spec_frame(compressed: bool, body: Seq<u8>) -> Seq<u8> {
    ppaass_flag() + seq![if compressed { 1u8 } else { 0u8 }] + be_u64(body.len() as u64) + body
}

/// The body a frame carries for the message bytes `raw`: compressed when asked.
pub open spec fn spec_frame_body(compressed: bool, raw: Seq<u8>) -> Option<Seq<u8>> {
    if compressed {
        lz4_compress_block(raw)
    } else {
        Some(raw)
    }
}

/// Reading a frame back: a decoder that stands before a header finds, in the
/// bytes of a frame followed by anything, that frame's compression flag, its
/// body and the bytes after it.
pub proof fn lemma_frame_scan_roundtrip(compressed: bool, body: Seq<u8>, rest: Seq<u8>)
    requires
        body.len() <= usize::MAX,
    ensures
        spec_scan_frame(DecodeStatus::Head, spec_frame(compressed, body) + rest) == FrameScan::Body(
            compressed,
            body.len() as u64,
            body,
            rest,
        ),
{
    let b: u8 = if compressed { 1u8 } else { 0u8 };
    let n = body.len() as u64;
    let f = spec_frame(compressed, body) + rest;
    let head = ppaass_flag() + seq![b] + be_u64(n);
    assert(f =~= head + (body + rest));
    assert(f.take(10) =~= ppaass_flag());
    assert(f[10] == b);
    assert(f.subrange(11, 19) =~= be_u64(n));
    lemma_read_u64(f, 11, n);
    assert(f.skip(19) =~= body + rest);
    assert((body + rest).take(n as usize as int) =~= body);
    assert((body + rest).skip(n as usize as int) =~= rest);
}

/// Reading a frame that arrives in two parts: a decoder standing before a
/// header that is handed the header and the first `k` body bytes keeps the
/// header's compression flag and length and waits; handed the rest of the body
/// (and whatever follows) in that state, it finds the same body, under the same
/// compression flag, as a decoder handed the whole frame at once.
pub proof fn lemma_frame_scan_split(compressed: bool, body: Seq<u8>, k: int, rest: Seq<u8>)
    requires
        body.len() <= usize::MAX,
        0 <= k < body.len(),
    ensures
        spec_scan_frame(DecodeStatus::Head, spec_frame(compressed, body).take(19 + k)) == FrameScan::Partial(
            compressed,
            body.len() as u64,
            body.take(k),
        ),
        spec_scan_frame(DecodeStatus::Data(compressed, body.len() as u64), body.take(k) + (body.skip(k) + rest))
            == spec_scan_frame(DecodeStatus::Head, spec_frame(compressed, body) + rest),
        spec_scan_frame(DecodeStatus::Data(compressed, body.len() as u64), body.take(k) + (body.skip(k) + rest))
            == FrameScan::Body(compressed, body.len() as u64, body, rest),
{
    lemma_frame_scan_roundtrip(compressed, body, rest);
    let b: u8 = if compressed { 1u8 } else { 0u8 };
    let n = body.len() as u64;
    let head = ppaass_flag() + seq![b] + be_u64(n);
    let f = spec_frame(compressed, body);
    let p = f.take(19 + k);
    assert(f =~= head + body);
    assert(p =~= head + body.take(k));
    assert(p.take(10) =~= ppaass_flag());
    assert(p[10] == b);
    assert(p.subrange(11, 19) =~= be_u64(n));
    lemma_read_u64(p, 11, n);
    assert(p.skip(19) =~= body.take(k));
    let t = body.take(k) + (body.skip(k) + rest);
    assert(t =~= body + rest);
    assert((body + rest).take(n as usize as int) =~= body);
    assert((body + rest).skip(n as usize as int) =~= rest);
}

/// Writing then reading a message: the frame of the message bytes of `m` (its
/// body made by [`spec_frame_body`]) reads back, whatever follows it, as a
/// body that gives those message bytes back, and they read as `m`, normalized.
/// A message that travels as it is then comes out of decryption unchanged,
/// under any private key.
pub proof fn lemma_codec_roundtrip(compressed: bool, m: SpecMessage, body: Seq<u8>, rest: Seq<u8>, pem: Seq<char>)
    requires
        message_wf(m),
        body.len() <= usize::MAX,
        spec_frame_raw(compressed, body) == Some(spec_encode_message(m)),
        spec_payload_plain(m),
    ensures
        spec_scan_frame(DecodeStatus::Head, spec_frame(compressed, body) + rest) == FrameScan::Body(
            compressed,
            body.len() as u64,
            body,
            rest,
        ),
        !spec_message_overruns(spec_encode_message(m)),
        spec_decode_message(spec_encode_message(m)) == Some(spec_normalize_message(m)),
        spec_decrypt_outcome(pem, spec_normalize_message(m)) == DecryptOutcome::Decrypted(spec_normalize_message(m)),
{
    lemma_frame_scan_roundtrip(compressed, body, rest);
    lemma_message_roundtrip(m, Seq::empty());
    assert(spec_encode_message(m) + Seq::<u8>::empty() =~= spec_encode_message(m));
}

/// Reading back an encrypted message: when the reader's private key `pem` is
/// the private half of the writer's public key `public_pem`, under which the
/// writer sealed its token (see [`spec_token_sealed`]), decryption succeeds and
/// gives the written message, normalized, carrying the sealed token and its
/// payload as the cipher gives it back (see [`spec_payload_recovered`]).
pub proof fn lemma_encrypted_message_roundtrip(m: SpecMessage, m2: SpecMessage, public_pem: Seq<char>, pem: Seq<char>)
    requires
        m.payload matches Some(content) && content.len() > 0,
        !spec_payload_plain(m),
        token_fits(m.payload_encryption_type),
        m.payload_encryption_type matches SpecEncryptionType::Aes(tok) ==> tok.len() == 32,
        spec_payload_encrypted(m, m2),
        spec_cipher_inverts(m),
        spec_token_sealed(public_pem, m, m2),
        rsa_key_pair(public_pem, pem),
    ensures
        spec_decrypt_outcome(pem, spec_normalize_message(m2)) == DecryptOutcome::Decrypted(
            SpecMessage {
                payload_encryption_type: m2.payload_encryption_type,
                payload: Some(spec_payload_recovered(m.payload_encryption_type, m.payload->0)),
                ..spec_normalize_message(m)
            },
        ),
{
    let content = m.payload->0;
    match m.payload_encryption_type {
        SpecEncryptionType::Blowfish(tok) => {
            let ct = choose|ct: Seq<u8>|
                m2 == (SpecMessage {
                    payload_encryption_type: SpecEncryptionType::Blowfish(ct),
                    payload: Some(spec_blowfish_encrypt(tok, content)),
                    ..m
                });
            assert(spec_blowfish_encrypt(tok, content).len() > 0);
        },
        SpecEncryptionType::Aes(tok) => {
            let ct = choose|ct: Seq<u8>|
                m2 == (SpecMessage {
                    payload_encryption_type: SpecEncryptionType::Aes(ct),
                    payload: Some(spec_aes_encrypt(tok, content)),
                    ..m
                });
            assert(spec_aes_encrypt(tok, content).len() > 0);
        },
        SpecEncryptionType::Plain => {},
    }
}

/// Whether `s` starts with the flag.
fn starts_with_flag(s: &[u8]) -> (res: bool)
    requires
        s@.len() >= 10,
    ensures
        res == (s@.take(10) == ppaass_flag()),
{
    let res = s[0] == 95u8 && s[1] == 95u8 && s[2] == 80u8 && s[3] == 80u8 && s[4] == 65u8 && s[5] == 65u8
        && s[6] == 83u8 && s[7] == 83u8 && s[8] == 95u8 && s[9] == 95u8;
    if res {
        assert(s@.take(10) =~= ppaass_flag());
    } else {
        assert(s@.take(10) != ppaass_flag()) by {
            if s@.take(10) == ppaass_flag() {
                assert(s@.take(10)[0] == 95u8 && s@.take(10)[1] == 95u8 && s@.take(10)[2] == 80u8);
                assert(s@.take(10)[3] == 80u8 && s@.take(10)[4] == 65u8 && s@.take(10)[5] == 65u8);
                assert(s@.take(10)[6] == 83u8 && s@.take(10)[7] == 83u8 && s@.take(10)[8] == 95u8);
                assert(s@.take(10)[9] == 95u8);
            }
        }
    }
    res
}

/// Appends the flag.
fn put_flag(buf: &mut Vec<u8>)
    ensures
        final(buf)@ == old(buf)@ + ppaass_flag(),
{
    buf.push(95u8);
    buf.push(95u8);
    buf.push(80u8);
    buf.push(80u8);
    buf.push(65u8);
    buf.push(65u8);
    buf.push(83u8);
    buf.push(83u8);
    buf.push(95u8);
    buf.push(95u8);
    assert(buf@ =~= old(buf)@ + ppaass_flag());
}

/// Reads what `src` holds when the decoder stands at `status`: consumes a
/// header and a whole body as they arrive, moves `status` on, and gives the
/// compression flag and the body of a complete frame (see [`spec_scan_frame`]).
pub fn scan_frame(status: &mut DecodeStatus, src: &mut Vec<u8>) -> (res: Result<Option<(bool, Vec<u8>)>, PpaassError>)
    ensures
        match spec_scan_frame(*old(status), old(src)@) {
            FrameScan::Wait => res matches Ok(None) && final(src)@ == old(src)@ && *final(status) == *old(status),
            FrameScan::BadFlag => res matches Err(e) && e is CodecError && final(src)@ == old(src)@.skip(10)
                && *final(status) == *old(status),
            FrameScan::Partial(c, l, rest) => res matches Ok(None) && final(src)@ == rest && *final(status)
                == DecodeStatus::Data(c, l),
            FrameScan::Body(c, l, body, rest) => res matches Ok(Some((c2, b))) && c2 == c && b@ == body
                && final(src)@ == rest && *final(status) == DecodeStatus::Data(c, l),
        },
{
    let (compressed, body_length) = match *status {
        DecodeStatus::Head => {
            if src.len() < HEADER_LENGTH {
                return Ok(None);
            }
            if !starts_with_flag(src.as_slice()) {
                drop_front(src, 10);
                return Err(PpaassError::CodecError);
            }
            let compressed = src[10] == 1u8;
            let body_length = get_u64(src.as_slice(), 11);
            drop_front(src, HEADER_LENGTH);
            *status = DecodeStatus::Data(compressed, body_length);
            (compressed, body_length)
        },
        DecodeStatus::Data(c, l) => (c, l),
    };
    let n = body_length as usize;
    if src.len() < n {
        return Ok(None);
    }
    let len = src.len();
    let body = copy_range(src.as_slice(), 0, n);
    drop_front(src, n);
    assert(body@ =~= old(src)@.skip(if *old(status) == DecodeStatus::Head { 19int } else { 0int }).take(n as int));
    Ok(Some((compressed, body)))
}

/// Frames messages on a byte stream and takes them off it again, compressing
/// bodies when asked to and encrypting payloads with the user's RSA crypto.
pub struct MessageCodec<T: RsaCryptoFetcher> {
    rsa_crypto_fetcher: Arc<T>,
    compress: bool,
    status: DecodeStatus,
}

impl<T: RsaCryptoFetcher> MessageCodec<T> {
    /// Whether this codec compresses the bodies it writes.
    pub closed spec fn compresses(&self) -> bool {
        self.compress
    }

    /// Where the decoder stands.
    pub closed spec fn decode_status(&self) -> DecodeStatus {
        self.status
    }

    /// The fetcher of users' RSA cryptos.
    pub closed spec fn fetcher(&self) -> Arc<T> {
        self.rsa_crypto_fetcher
    }

    /// A codec that compresses bodies when `compress` is set, and stands before a frame header.
    pub fn new(compress: bool, rsa_crypto_fetcher: Arc<T>) -> (res: Self)
        ensures
            res.compresses() == compress,
            res.decode_status() == DecodeStatus::Head,
            res.fetcher() == rsa_crypto_fetcher,
    {
        MessageCodec { rsa_crypto_fetcher, compress, status: DecodeStatus::Head }
    }

    /// Takes the next message off `src`. `Ok(None)` while the frame has not
    /// fully arrived; `CodecError` when the bytes do not start with the flag
    /// (the flag's bytes are dropped) or the body is not a message; `IoError`
    /// when a compressed body does not decompress. After a whole body, the
    /// payload is decrypted with the crypto the fetcher gives for the user
    /// token (see [`RsaCryptoFetcher::crypto_of`] and [`spec_decrypt_outcome`]),
    /// and the decoder stands before the next header again; a user without
    /// crypto is an error. `None` for the bodies on which reading would panic:
    /// those whose message reading runs past the end (see
    /// [`spec_message_overruns`]), and those whose decrypted encryption token
    /// does not fit its cipher.
    pub fn decode(&mut self, src: &mut Vec<u8>) -> (res: Option<Result<Option<Message>, PpaassError>>)
        ensures
            final(self).compresses() == old(self).compresses(),
            final(self).fetcher() == old(self).fetcher(),
            match spec_scan_frame(old(self).decode_status(), old(src)@) {
                FrameScan::Wait => res matches Some(Ok(None)) && final(src)@ == old(src)@
                    && final(self).decode_status() == old(self).decode_status(),
                FrameScan::BadFlag => res matches Some(Err(e)) && e is CodecError && final(src)@ == old(src)@.skip(10)
                    && final(self).decode_status() == old(self).decode_status(),
                FrameScan::Partial(c, l, rest) => res matches Some(Ok(None)) && final(src)@ == rest
                    && final(self).decode_status() == DecodeStatus::Data(c, l),
                FrameScan::Body(c, l, body, rest) => final(src)@ == rest && match spec_frame_raw(c, body) {
                    None => res matches Some(Err(e)) && e is IoError && final(self).decode_status()
                        == DecodeStatus::Data(c, l),
                    Some(raw) => if spec_message_overruns(raw) {
                        res is None
                    } else {
                        match spec_decode_message(raw) {
                            None => res matches Some(Err(e)) && e is CodecError && final(self).decode_status()
                                == DecodeStatus::Data(c, l),
                            Some(pm) => match old(self).fetcher().crypto_of(pm.user_token) {
                                None => res matches Some(Err(_)) && final(self).decode_status() == DecodeStatus::Data(
                                    c,
                                    l,
                                ),
                                Some(keys) => match spec_decrypt_outcome(keys.1, pm) {
                                    DecryptOutcome::Decrypted(m2) => res matches Some(Ok(Some(m))) && m@ == m2
                                        && final(self).decode_status() == DecodeStatus::Head,
                                    DecryptOutcome::Refused => res matches Some(Err(e)) && e is CodecError
                                        && final(self).decode_status() == DecodeStatus::Data(c, l),
                                    DecryptOutcome::Unfit => res is None && final(self).decode_status()
                                        == DecodeStatus::Data(c, l),
                                },
                            },
                        }
                    },
                },
            },
    {
        let scanned = scan_frame(&mut self.status, src);
        let (compressed, body) = match scanned {
            Err(e) => return Some(Err(e)),
            Ok(None) => return Some(Ok(None)),
            Ok(Some(v)) => v,
        };
        let raw = if compressed {
            match lz4_decompress(body.as_slice()) {
                Ok(v) => v,
                Err(e) => return Some(Err(PpaassError::IoError { source: e })),
            }
        } else {
            body
        };
        if Message::decode_overruns(raw.as_slice()) {
            return None;
        }
        let message = match Message::decode(raw.as_slice()) {
            Ok(m) => m,
            Err(e) => return Some(Err(e)),
        };
        let ghost pm = message@;
        let decrypted = match self.rsa_crypto_fetcher.fetch(message.user_token.as_str()) {
            Err(e) => return Some(Err(e)),
            Ok(None) => return Some(Err(PpaassError::CodecError)),
            Ok(Some(rsa_crypto)) => decrypt_message_payload(message, rsa_crypto),
        };
        match decrypted {
            None => None,
            Some(Err(e)) => Some(Err(e)),
            Some(Ok(m)) => {
                self.status = DecodeStatus::Head;
                Some(Ok(Some(m)))
            },
        }
    }

    /// Writes `message` to `dst` as a frame: the flag and the compression byte
    /// first, then the body length and the body. A message without payload is
    /// written as it is; otherwise the fetcher's crypto for the user token
    /// encrypts it (see [`spec_payload_encrypted`]), and a missing crypto is a
    /// `CodecError`. With compression, a body that does not compress is an
    /// `IoError`. On an error only the flag and the compression byte have been
    /// written. The crypto is the one [`RsaCryptoFetcher::crypto_of`] names for
    /// the user token, and the token it seals is the message's own (see
    /// [`spec_token_sealed`]). Without compression, writing succeeds whenever
    /// that crypto can encrypt the payload (see [`spec_encryptable`]). `None`
    /// where encryption would panic (see [`spec_encryption_panics`]).
    pub fn encode(&mut self, message: Message, dst: &mut Vec<u8>) -> (res: Option<Result<(), PpaassError>>)
        ensures
            final(self).compresses() == old(self).compresses(),
            final(self).decode_status() == old(self).decode_status(),
            final(self).fetcher() == old(self).fetcher(),
            match res {
                None => message@.payload is Some && (old(self).fetcher().crypto_of(message@.user_token) matches Some(
                    keys,
                ) && spec_encryption_panics(keys.0, message@)),
                Some(Err(e)) => final(dst)@ == old(dst)@ + ppaass_flag() + seq![
                    if old(self).compresses() { 1u8 } else { 0u8 },
                ] && ((message@.payload is Some && match old(self).fetcher().crypto_of(message@.user_token) {
                    None => true,
                    Some(keys) => spec_encryption_refused(keys.0, message@),
                }) || (e is IoError && old(self).compresses() && exists|m2: SpecMessage|
                    #![trigger spec_encode_message(m2)]
                    {
                        &&& (if message@.payload is None {
                            m2 == message@
                        } else {
                            &&& spec_payload_encrypted(message@, m2)
                            &&& old(self).fetcher().crypto_of(message@.user_token) matches Some(keys)
                            &&& spec_token_sealed(keys.0, message@, m2)
                        })
                        &&& lz4_compress_block(spec_encode_message(m2)) is None
                    })),
                Some(Ok(())) => exists|m2: SpecMessage, body: Seq<u8>|
                    #![trigger spec_encode_message(m2), spec_frame(old(self).compresses(), body)]
                    {
                        &&& (if message@.payload is None {
                            m2 == message@
                        } else {
                            &&& spec_payload_encrypted(message@, m2)
                            &&& old(self).fetcher().crypto_of(message@.user_token) matches Some(keys)
                            &&& spec_token_sealed(keys.0, message@, m2)
                        })
                        &&& spec_frame_body(old(self).compresses(), spec_encode_message(m2)) == Some(body)
                        &&& spec_frame_raw(old(self).compresses(), body) == Some(spec_encode_message(m2))
                        &&& final(dst)@ == old(dst)@ + spec_frame(old(self).compresses(), body)
                        &&& spec_cipher_inverts(message@)
                    },
            },
            !old(self).compresses() && (message@.payload is None || (old(self).fetcher().crypto_of(
                message@.user_token,
            ) matches Some(keys) && spec_encryptable(keys.0, message@))) ==> res matches Some(Ok(())),
            message@.payload is None ==> (res matches Some(r) && (r is Ok <==> spec_frame_body(
                old(self).compresses(),
                spec_encode_message(message@),
            ) is Some) && (r matches Err(e) ==> e is IoError)),
    {
        let ghost start = dst@;
        let ghost pm = message@;
        put_flag(dst);
        if self.compress {
            dst.push(1u8);
        } else {
            dst.push(0u8);
        }
        let ghost prefix = dst@;
        let to_encode = if message.payload.is_none() {
            message
        } else {
            let fetched = self.rsa_crypto_fetcher.fetch(message.user_token.as_str());
            match fetched {
                Err(e) => return Some(Err(e)),
                Ok(None) => return Some(Err(PpaassError::CodecError)),
                Ok(Some(rsa_crypto)) => match encrypt_message_payload(message, rsa_crypto) {
                    None => return None,
                    Some(Err(e)) => return Some(Err(e)),
                    Some(Ok(m)) => m,
                },
            }
        };
        let raw = to_encode.encode();
        let ghost m2 = to_encode@;
        assert(if pm.payload is None {
            m2 == pm
        } else {
            &&& spec_payload_encrypted(pm, m2)
            &&& old(self).fetcher().crypto_of(pm.user_token) matches Some(keys)
            &&& spec_token_sealed(keys.0, pm, m2)
        });
        let body = if self.compress {
            match lz4_compress(raw.as_slice()) {
                Ok(v) => v,
                Err(e) => {
                    assert(lz4_compress_block(spec_encode_message(m2)) is None);
                    return Some(Err(PpaassError::IoError { source: e }));
                },
            }
        } else {
            raw
        };
        put_u64(dst, body.len() as u64);
        put_slice(dst, body.as_slice());
        assert(dst@ =~= start + spec_frame(self.compress, body@));
        assert(spec_frame_raw(self.compress, body@) == Some(spec_encode_message(to_encode@)));
        let ghost b = body@;
        assert({
            &&& (if pm.payload is None {
                m2 == pm
            } else {
                &&& spec_payload_encrypted(pm, m2)
                &&& old(self).fetcher().crypto_of(pm.user_token) matches Some(keys)
                &&& spec_token_sealed(keys.0, pm, m2)
            })
            &&& spec_frame_body(old(self).compresses(), spec_encode_message(m2)) == Some(b)
            &&& spec_frame_raw(old(self).compresses(), b) == Some(spec_encode_message(m2))
            &&& dst@ == start + spec_frame(old(self).compresses(), b)
            &&& spec_cipher_inverts(pm)
        });
        Some(Ok(()))
    }
}

} // verus!
