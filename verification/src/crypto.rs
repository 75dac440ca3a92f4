//! Payload ciphers (Blowfish and AES over zero-padded blocks), RSA key handling
//! for encryption tokens, and the paths of generated key pairs.
use vstd::prelude::*;

use crypto::symmetriccipher::{BlockDecryptor, BlockEncryptor};
use rsa::pkcs8::{DecodePrivateKey, DecodePublicKey, EncodePrivateKey, EncodePublicKey, LineEnding};
use rsa::pkcs1::der::Document;
use rsa::{PublicKey, PublicKeyParts};

use vstd::string::StringExecFns;

use crate::error::PpaassError;
use crate::wire::copy_range;

verus! {

/// Block length of Blowfish.
pub const BLOWFISH_CHUNK_LENGTH: usize = 8;
/// Block length of AES.
pub const AES_CHUNK_LENGTH: usize = 16;

/// `c` followed by zero bytes up to length `n`.
pub open spec fn zero_pad(c: Seq<u8>, n: nat) -> Seq<u8> {
    c + Seq::new((n - c.len()) as nat, |i: int| 0u8)
}

/// Cuts `data` into chunks of `n` bytes (the last one possibly shorter), maps
/// each chunk with `f`, and joins the results.
pub open spec fn spec_map_chunks(data: Seq<u8>, n: nat, f: spec_fn(Seq<u8>) -> Seq<u8>) -> Seq<u8>
    decreases data.len(),
{
    if data.len() == 0 || n == 0 {
        Seq::empty()
    } else if data.len() <= n {
        f(data)
    } else {
        f(data.take(n as int)) + spec_map_chunks(data.skip(n as int), n, f)
    }
}

/// The result of the Blowfish cipher, keyed with `key`, on one 8-byte block.
pub uninterp spec fn blowfish_encrypt_block(key: Seq<u8>, block: Seq<u8>) -> Seq<u8>;

/// The result of the Blowfish inverse cipher, keyed with `key`, on one 8-byte block.
pub uninterp spec fn blowfish_decrypt_block(key: Seq<u8>, block: Seq<u8>) -> Seq<u8>;

/// The result of the AES cipher (rust-crypto's `AesSafe256Encryptor`), keyed
/// with `key`, on one 16-byte block.
pub uninterp spec fn aes_encrypt_block(key: Seq<u8>, block: Seq<u8>) -> Seq<u8>;

/// The result of the AES inverse cipher (rust-crypto's `AesSafe256Decryptor`),
/// keyed with `key`, on one 16-byte block.
pub uninterp spec fn aes_decrypt_block(key: Seq<u8>, block: Seq<u8>) -> Seq<u8>;

/// Blowfish over the zero-padded 8-byte chunks of `data`.
pub open spec fn spec_blowfish_encrypt(key: Seq<u8>, data: Seq<u8>) -> Seq<u8> {
    spec_map_chunks(data, 8, |c: Seq<u8>| blowfish_encrypt_block(key, zero_pad(c, 8)))
}

/// Blowfish inverse over the zero-padded 8-byte chunks of `data`.
pub open spec fn spec_blowfish_decrypt(key: Seq<u8>, data: Seq<u8>) -> Seq<u8> {
    spec_map_chunks(data, 8, |c: Seq<u8>| blowfish_decrypt_block(key, zero_pad(c, 8)))
}

/// The block AES encryption is given for a chunk: the zero-padded chunk when it
/// is shorter than a block, and an all-zero block for a full chunk (the full
/// chunk's bytes are copied into the output buffer, which the cipher then
/// overwrites, so its input stays zero).
pub open spec fn aes_input_block(c: Seq<u8>) -> Seq<u8> {
    if c.len() < 16 {
        zero_pad(c, 16)
    } else {
        Seq::new(16, |i: int| 0u8)
    }
}

/// AES over the 16-byte chunks of `data`, each given as [`aes_input_block`].
pub open spec fn spec_aes_encrypt(key: Seq<u8>, data: Seq<u8>) -> Seq<u8> {
    spec_map_chunks(data, 16, |c: Seq<u8>| aes_encrypt_block(key, aes_input_block(c)))
}

/// AES inverse over the zero-padded 16-byte chunks of `data`.
pub open spec fn spec_aes_decrypt(key: Seq<u8>, data: Seq<u8>) -> Seq<u8> {
    spec_map_chunks(data, 16, |c: Seq<u8>| aes_decrypt_block(key, zero_pad(c, 16)))
}

/// Zero-padding chunk by chunk: padding each `n`-byte chunk of `data` (the
/// last one possibly shorter) to `n` bytes gives `data` followed by zeros up
/// to the next multiple of `n`.
pub proof fn lemma_zero_pad_chunks(data: Seq<u8>, n: nat)
    requires
        n > 0,
    ensures
        spec_map_chunks(data, n, |c: Seq<u8>| zero_pad(c, n)) == zero_pad(data, (n * ((data.len() + n - 1) / (n as int))) as nat),
    decreases data.len(),
{
    let f = |c: Seq<u8>| zero_pad(c, n);
    let l = data.len();
    if l == 0 {
        assert((n - 1) / (n as int) == 0) by (nonlinear_arith)
            requires n > 0;
        assert(zero_pad(data, 0) =~= data);
    } else if l <= n {
        assert((l + n - 1) / (n as int) == 1) by (nonlinear_arith)
            requires n > 0, 0 < l <= n;
    } else {
        let rest = data.skip(n as int);
        lemma_zero_pad_chunks(rest, n);
        assert((l + n - 1) / (n as int) == 1 + (rest.len() + n - 1) / (n as int)) by (nonlinear_arith)
            requires n > 0, l > n, rest.len() == l - n;
        assert(n * ((l + n - 1) / (n as int)) == n + n * ((rest.len() + n - 1) / (n as int))) by (nonlinear_arith)
            requires (l + n - 1) / (n as int) == 1 + (rest.len() + n - 1) / (n as int);
        assert(n * ((rest.len() + n - 1) / (n as int)) >= rest.len()) by (nonlinear_arith)
            requires n > 0;
        assert(zero_pad(data.take(n as int), n) =~= data.take(n as int));
        assert(data.take(n as int) + zero_pad(rest, (n * ((rest.len() + n - 1) / (n as int))) as nat) =~= zero_pad(
            data,
            (n * ((l + n - 1) / (n as int))) as nat,
        ));
    }
}

proof fn lemma_map_chunks_step(data: Seq<u8>, i: int, n: nat, f: spec_fn(Seq<u8>) -> Seq<u8>)
    requires
        0 <= i < data.len(),
        n > 0,
    ensures
        data.len() - i <= n ==> spec_map_chunks(data.skip(i), n, f) == f(data.subrange(i, data.len() as int)),
        data.len() - i > n ==> spec_map_chunks(data.skip(i), n, f) == f(data.subrange(i, i + n))
            + spec_map_chunks(data.skip(i + n), n, f),
{
    assert(data.skip(i) =~= data.subrange(i, data.len() as int));
    if data.len() - i > n {
        assert(data.skip(i).take(n as int) =~= data.subrange(i, i + n));
        assert(data.skip(i).skip(n as int) =~= data.skip(i + n));
    }
}

/// A Blowfish cipher together with the key it was made from.
pub struct BlowfishCipher {
    inner: crypto::blowfish::Blowfish,
    key: Ghost<Seq<u8>>,
}

impl View for BlowfishCipher {
    type V = Seq<u8>;

    closed spec fn view(&self) -> Seq<u8> {
        self.key@
    }
}

#[verifier::external_type_specification]
#[verifier::external_body]
pub struct ExBlowfish(crypto::blowfish::Blowfish);

#[verifier::external_type_specification]
#[verifier::external_body]
pub struct ExAesSafe256Encryptor(crypto::aessafe::AesSafe256Encryptor);

#[verifier::external_type_specification]
#[verifier::external_body]
pub struct ExAesSafe256Decryptor(crypto::aessafe::AesSafe256Decryptor);

/// `crypto::blowfish::Blowfish::new`: the key schedule for `key`; it panics
/// unless the key has 4 to 56 bytes. Nothing is stated of the schedule itself.
#[verifier::external_body]
fn blowfish_new(key: &[u8]) -> crypto::blowfish::Blowfish
    requires
        4 <= key@.len() <= 56,
{
    crypto::blowfish::Blowfish::new(key)
}

/// `BlockEncryptor::encrypt_block` of Blowfish on one 8-byte block: the block
/// encrypted under the cipher's key, 8 bytes long, which the inverse cipher
/// under the same key turns back into the block.
#[verifier::external_body]
fn blowfish_encrypt_one(cipher: &BlowfishCipher, block: &[u8]) -> (res: Vec<u8>)
    requires
        block@.len() == 8,
    ensures
        res@ == blowfish_encrypt_block(cipher@, block@),
        res@.len() == 8,
        blowfish_decrypt_block(cipher@, res@) == block@,
{
    let mut out = vec![0u8; 8];
    cipher.inner.encrypt_block(block, &mut out);
    out
}

/// `BlockDecryptor::decrypt_block` of Blowfish on one 8-byte block: the block
/// decrypted under the cipher's key, 8 bytes long.
#[verifier::external_body]
fn blowfish_decrypt_one(cipher: &BlowfishCipher, block: &[u8]) -> (res: Vec<u8>)
    requires
        block@.len() == 8,
    ensures
        res@ == blowfish_decrypt_block(cipher@, block@),
        res@.len() == 8,
{
    let mut out = vec![0u8; 8];
    cipher.inner.decrypt_block(block, &mut out);
    out
}

impl BlowfishCipher {
    /// The cipher for `key`, which must have 4 to 56 bytes.
    pub fn new(key: &[u8]) -> (res: BlowfishCipher)
        requires
            4 <= key@.len() <= 56,
        ensures
            res@ == key@,
    {
        BlowfishCipher { inner: blowfish_new(key), key: Ghost(key@) }
    }
}

/// An AES encryptor together with the key it was made from.
pub struct AesEncryptor {
    inner: crypto::aessafe::AesSafe256Encryptor,
    key: Ghost<Seq<u8>>,
}

impl View for AesEncryptor {
    type V = Seq<u8>;

    closed spec fn view(&self) -> Seq<u8> {
        self.key@
    }
}

/// An AES decryptor together with the key it was made from.
pub struct AesDecryptor {
    inner: crypto::aessafe::AesSafe256Decryptor,
    key: Ghost<Seq<u8>>,
}

impl View for AesDecryptor {
    type V = Seq<u8>;

    closed spec fn view(&self) -> Seq<u8> {
        self.key@
    }
}

/// An AES key length the rust-crypto key schedule accepts (it panics on others).
pub open spec fn aes_key_len_ok(n: nat) -> bool {
    n == 16 || n == 24 || n == 32
}

/// `crypto::aessafe::AesSafe256Encryptor::new`: the key schedule for `key`;
/// it panics unless the key has 16, 24 or 32 bytes. Nothing is stated of the schedule.
#[verifier::external_body]
fn aes_encryptor_new(key: &[u8]) -> crypto::aessafe::AesSafe256Encryptor
    requires
        aes_key_len_ok(key@.len()),
{
    crypto::aessafe::AesSafe256Encryptor::new(key)
}

/// `crypto::aessafe::AesSafe256Decryptor::new`: the key schedule for `key`;
/// it panics unless the key has 16, 24 or 32 bytes. Nothing is stated of the schedule.
#[verifier::external_body]
fn aes_decryptor_new(key: &[u8]) -> crypto::aessafe::AesSafe256Decryptor
    requires
        aes_key_len_ok(key@.len()),
{
    crypto::aessafe::AesSafe256Decryptor::new(key)
}

/// `BlockEncryptor::encrypt_block` of `AesSafe256Encryptor` on one 16-byte
/// block: the block encrypted under the key, 16 bytes long. With a 32-byte
/// key the inverse cipher under the same key turns it back into the block;
/// with a 16- or 24-byte key the 256-bit decryptor's key schedule leaves some
/// middle round keys untransformed, and nothing is said of the inverse.
#[verifier::external_body]
fn aes_encrypt_one(cipher: &AesEncryptor, block: &[u8]) -> (res: Vec<u8>)
    requires
        block@.len() == 16,
    ensures
        res@ == aes_encrypt_block(cipher@, block@),
        res@.len() == 16,
        cipher@.len() == 32 ==> aes_decrypt_block(cipher@, res@) == block@,
{
    let mut out = vec![0u8; 16];
    cipher.inner.encrypt_block(block, &mut out);
    out
}

/// `BlockDecryptor::decrypt_block` of `AesSafe256Decryptor` on one 16-byte
/// block: the block decrypted under the key, 16 bytes long.
#[verifier::external_body]
fn aes_decrypt_one(cipher: &AesDecryptor, block: &[u8]) -> (res: Vec<u8>)
    requires
        block@.len() == 16,
    ensures
        res@ == aes_decrypt_block(cipher@, block@),
        res@.len() == 16,
{
    let mut out = vec![0u8; 16];
    cipher.inner.decrypt_block(block, &mut out);
    out
}

impl AesEncryptor {
    /// The encryptor for `key`, which must have 16, 24 or 32 bytes.
    pub fn new(key: &[u8]) -> (res: AesEncryptor)
        requires
            aes_key_len_ok(key@.len()),
        ensures
            res@ == key@,
    {
        AesEncryptor { inner: aes_encryptor_new(key), key: Ghost(key@) }
    }
}

impl AesDecryptor {
    /// The decryptor for `key`, which must have 16, 24 or 32 bytes.
    pub fn new(key: &[u8]) -> (res: AesDecryptor)
        requires
            aes_key_len_ok(key@.len()),
        ensures
            res@ == key@,
    {
        AesDecryptor { inner: aes_decryptor_new(key), key: Ghost(key@) }
    }
}

/// The chunk `s[from..to]` followed by zeros up to length `n`.
fn padded_chunk(s: &[u8], from: usize, to: usize, n: usize) -> (res: Vec<u8>)
    requires
        from <= to <= s@.len(),
        to - from <= n,
    ensures
        res@ == zero_pad(s@.subrange(from as int, to as int), n as nat),
{
    let mut res = copy_range(s, from, to);
    while res.len() < n
        invariant
            to - from <= res@.len() <= n,
            res@ == s@.subrange(from as int, to as int) + Seq::new((res@.len() - (to - from)) as nat, |i: int| 0u8),
        decreases n - res@.len(),
    {
        res.push(0u8);
        assert(res@ =~= s@.subrange(from as int, to as int) + Seq::new((res@.len() - (to - from)) as nat, |i: int| 0u8));
    }
    assert(res@ =~= zero_pad(s@.subrange(from as int, to as int), n as nat));
    res
}

/// Encrypts `target` with Blowfish keyed by `encryption_token`, chunk by chunk,
/// zero-padding the last chunk. Decrypting the result under the same key gives
/// back `target` zero-padded to a multiple of 8 bytes.
pub fn encrypt_with_blowfish(encryption_token: &[u8], target: &[u8]) -> (res: Vec<u8>)
    requires
        4 <= encryption_token@.len() <= 56,
    ensures
        res@ == spec_blowfish_encrypt(encryption_token@, target@),
        spec_blowfish_decrypt(encryption_token@, res@) == spec_map_chunks(target@, 8, |c: Seq<u8>| zero_pad(c, 8)),
        spec_blowfish_decrypt(encryption_token@, res@) == zero_pad(target@, res@.len()),
        res@.len() == 8 * ((target@.len() + 7) / 8),
        target@.len() > 0 ==> res@.len() > 0,
{
    let cipher = BlowfishCipher::new(encryption_token);
    let ghost key = encryption_token@;
    let ghost fe = |c: Seq<u8>| blowfish_encrypt_block(key, zero_pad(c, 8));
    let ghost fd = |c: Seq<u8>| blowfish_decrypt_block(key, zero_pad(c, 8));
    let ghost fp = |c: Seq<u8>| zero_pad(c, 8);
    let mut result: Vec<u8> = Vec::new();
    let len = target.len();
    let mut i: usize = 0;
    assert(target@.skip(0) =~= target@);
    while i < len
        invariant
            i <= len == target@.len(),
            cipher@ == key,
            key == encryption_token@,
            fe == (|c: Seq<u8>| blowfish_encrypt_block(key, zero_pad(c, 8))),
            fd == (|c: Seq<u8>| blowfish_decrypt_block(key, zero_pad(c, 8))),
            fp == (|c: Seq<u8>| zero_pad(c, 8)),
            spec_map_chunks(target@, 8, fe) == result@ + spec_map_chunks(target@.skip(i as int), 8, fe),
            result@.len() % 8 == 0,
            spec_map_chunks(result@, 8, fd) == spec_map_chunks(target@.take(i as int), 8, fp),
            i % 8 == 0 || i == len,
            i > 0 ==> result@.len() > 0,
            result@.len() == 8 * ((i + 7) / 8),
        decreases len - i,
    {
        let end = if len - i <= 8 { len } else { i + 8 };
        let block = padded_chunk(target, i, end, 8);
        let encrypted = blowfish_encrypt_one(&cipher, block.as_slice());
        let ghost chunk = target@.subrange(i as int, end as int);
        let ghost old_result = result@;
        proof {
            lemma_map_chunks_step(target@, i as int, 8, fe);
            assert(encrypted@ == fe(chunk));
            if end < len {
                assert(spec_map_chunks(target@.skip(i as int), 8, fe) == encrypted@ + spec_map_chunks(target@.skip(end as int), 8, fe));
            } else {
                assert(spec_map_chunks(target@.skip(i as int), 8, fe) == encrypted@);
                assert(target@.skip(end as int) =~= Seq::<u8>::empty());
                assert(spec_map_chunks(target@.skip(end as int), 8, fe) =~= Seq::<u8>::empty());
            }
            lemma_map_chunks_append(old_result, encrypted@, 8, fd);
            assert(zero_pad(encrypted@, 8) =~= encrypted@);
            assert(fd(encrypted@) == block@);
            assert(block@ == fp(chunk));
            assert(target@.take(i as int) + chunk =~= target@.take(end as int));
            lemma_map_chunks_append(target@.take(i as int), chunk, 8, fp);
        }
        result.append(&mut encrypted.clone());
        proof {
            assert(result@ =~= old_result + encrypted@);
            assert(spec_map_chunks(target@, 8, fe) =~= result@ + spec_map_chunks(target@.skip(end as int), 8, fe));
        }
        i = end;
    }
    assert(target@.take(len as int) =~= target@);
    proof {
        lemma_zero_pad_chunks(target@, 8);
        assert(fp == (|c: Seq<u8>| zero_pad(c, 8 as nat)));
    }
    result
}

/// Decrypts `target` with Blowfish keyed by `encryption_token`, chunk by
/// chunk, zero-padding the last chunk.
pub fn decrypt_with_blowfish(encryption_token: &[u8], target: &[u8]) -> (res: Vec<u8>)
    requires
        4 <= encryption_token@.len() <= 56,
    ensures
        res@ == spec_blowfish_decrypt(encryption_token@, target@),
{
    let cipher = BlowfishCipher::new(encryption_token);
    let ghost key = encryption_token@;
    let ghost fd = |c: Seq<u8>| blowfish_decrypt_block(key, zero_pad(c, 8));
    let mut result: Vec<u8> = Vec::new();
    let len = target.len();
    let mut i: usize = 0;
    assert(target@.skip(0) =~= target@);
    while i < len
        invariant
            i <= len == target@.len(),
            cipher@ == key,
            key == encryption_token@,
            fd == (|c: Seq<u8>| blowfish_decrypt_block(key, zero_pad(c, 8))),
            spec_map_chunks(target@, 8, fd) == result@ + spec_map_chunks(target@.skip(i as int), 8, fd),
        decreases len - i,
    {
        let end = if len - i <= 8 { len } else { i + 8 };
        let block = padded_chunk(target, i, end, 8);
        let decrypted = blowfish_decrypt_one(&cipher, block.as_slice());
        let ghost old_result = result@;
        proof {
            lemma_map_chunks_step(target@, i as int, 8, fd);
            if end == len {
                assert(target@.skip(end as int) =~= Seq::<u8>::empty());
                assert(spec_map_chunks(target@.skip(end as int), 8, fd) =~= Seq::<u8>::empty());
            }
        }
        result.append(&mut decrypted.clone());
        proof {
            assert(result@ =~= old_result + decrypted@);
            assert(spec_map_chunks(target@, 8, fd) =~= result@ + spec_map_chunks(target@.skip(end as int), 8, fd));
        }
        i = end;
    }
    result
}

/// Encrypts `target` with AES keyed by `encryption_token`, chunk by chunk: a
/// chunk shorter than a block is zero-padded, and a full chunk is encrypted as
/// an all-zero block (see [`aes_input_block`]). With a 32-byte key,
/// decrypting the result under the same key gives back those input blocks.
pub fn encrypt_with_aes(encryption_token: &[u8], target: &[u8]) -> (res: Vec<u8>)
    requires
        aes_key_len_ok(encryption_token@.len()),
    ensures
        res@ == spec_aes_encrypt(encryption_token@, target@),
        encryption_token@.len() == 32 ==> spec_aes_decrypt(encryption_token@, res@) == spec_map_chunks(
            target@,
            16,
            |c: Seq<u8>| aes_input_block(c),
        ),
        res@.len() == 16 * ((target@.len() + 15) / 16),
        target@.len() > 0 ==> res@.len() > 0,
{
    let cipher = AesEncryptor::new(encryption_token);
    let ghost key = encryption_token@;
    let ghost fe = |c: Seq<u8>| aes_encrypt_block(key, aes_input_block(c));
    let ghost fd = |c: Seq<u8>| aes_decrypt_block(key, zero_pad(c, 16));
    let ghost fp = |c: Seq<u8>| aes_input_block(c);
    let mut result: Vec<u8> = Vec::new();
    let len = target.len();
    let mut i: usize = 0;
    assert(target@.skip(0) =~= target@);
    while i < len
        invariant
            i <= len == target@.len(),
            cipher@ == key,
            key == encryption_token@,
            fe == (|c: Seq<u8>| aes_encrypt_block(key, aes_input_block(c))),
            fd == (|c: Seq<u8>| aes_decrypt_block(key, zero_pad(c, 16))),
            fp == (|c: Seq<u8>| aes_input_block(c)),
            spec_map_chunks(target@, 16, fe) == result@ + spec_map_chunks(target@.skip(i as int), 16, fe),
            result@.len() % 16 == 0,
            key.len() == 32 ==> spec_map_chunks(result@, 16, fd) == spec_map_chunks(target@.take(i as int), 16, fp),
            i % 16 == 0 || i == len,
            i > 0 ==> result@.len() > 0,
            result@.len() == 16 * ((i + 15) / 16),
        decreases len - i,
    {
        let end = if len - i <= 16 { len } else { i + 16 };
        let block = if end - i < 16 {
            padded_chunk(target, i, end, 16)
        } else {
            padded_chunk(target, i, i, 16)
        };
        let encrypted = aes_encrypt_one(&cipher, block.as_slice());
        let ghost chunk = target@.subrange(i as int, end as int);
        let ghost old_result = result@;
        proof {
            assert(block@ =~= aes_input_block(chunk));
            lemma_map_chunks_step(target@, i as int, 16, fe);
            assert(encrypted@ == fe(chunk));
            if end < len {
                assert(spec_map_chunks(target@.skip(i as int), 16, fe) == encrypted@ + spec_map_chunks(target@.skip(end as int), 16, fe));
            } else {
                assert(spec_map_chunks(target@.skip(i as int), 16, fe) == encrypted@);
                assert(target@.skip(end as int) =~= Seq::<u8>::empty());
                assert(spec_map_chunks(target@.skip(end as int), 16, fe) =~= Seq::<u8>::empty());
            }
            if key.len() == 32 {
                lemma_map_chunks_append(old_result, encrypted@, 16, fd);
                assert(zero_pad(encrypted@, 16) =~= encrypted@);
                assert(fd(encrypted@) == block@);
                assert(block@ == fp(chunk));
                assert(target@.take(i as int) + chunk =~= target@.take(end as int));
                lemma_map_chunks_append(target@.take(i as int), chunk, 16, fp);
            }
        }
        result.append(&mut encrypted.clone());
        proof {
            assert(result@ =~= old_result + encrypted@);
            assert(spec_map_chunks(target@, 16, fe) =~= result@ + spec_map_chunks(target@.skip(end as int), 16, fe));
        }
        i = end;
    }
    assert(target@.take(len as int) =~= target@);
    result
}

/// Decrypts `target` with AES keyed by `encryption_token`, chunk by chunk,
/// zero-padding the last chunk.
pub fn decrypt_with_aes(encryption_token: &[u8], target: &[u8]) -> (res: Vec<u8>)
    requires
        aes_key_len_ok(encryption_token@.len()),
    ensures
        res@ == spec_aes_decrypt(encryption_token@, target@),
{
    let cipher = AesDecryptor::new(encryption_token);
    let ghost key = encryption_token@;
    let ghost fd = |c: Seq<u8>| aes_decrypt_block(key, zero_pad(c, 16));
    let mut result: Vec<u8> = Vec::new();
    let len = target.len();
    let mut i: usize = 0;
    assert(target@.skip(0) =~= target@);
    while i < len
        invariant
            i <= len == target@.len(),
            cipher@ == key,
            key == encryption_token@,
            fd == (|c: Seq<u8>| aes_decrypt_block(key, zero_pad(c, 16))),
            spec_map_chunks(target@, 16, fd) == result@ + spec_map_chunks(target@.skip(i as int), 16, fd),
        decreases len - i,
    {
        let end = if len - i <= 16 { len } else { i + 16 };
        let block = padded_chunk(target, i, end, 16);
        let decrypted = aes_decrypt_one(&cipher, block.as_slice());
        let ghost old_result = result@;
        proof {
            lemma_map_chunks_step(target@, i as int, 16, fd);
            if end == len {
                assert(target@.skip(end as int) =~= Seq::<u8>::empty());
                assert(spec_map_chunks(target@.skip(end as int), 16, fd) =~= Seq::<u8>::empty());
            }
        }
        result.append(&mut decrypted.clone());
        proof {
            assert(result@ =~= old_result + decrypted@);
            assert(spec_map_chunks(target@, 16, fd) =~= result@ + spec_map_chunks(target@.skip(end as int), 16, fd));
        }
        i = end;
    }
    result
}

/// Joining chunked results: when `a` is a whole number of chunks, mapping
/// `a + b` is mapping `a` then mapping `b`.
proof fn lemma_map_chunks_append(a: Seq<u8>, b: Seq<u8>, n: nat, f: spec_fn(Seq<u8>) -> Seq<u8>)
    requires
        n > 0,
        a.len() % n == 0,
        0 < b.len() <= n,
    ensures
        spec_map_chunks(a + b, n, f) == spec_map_chunks(a, n, f) + f(b),
    decreases a.len(),
{
    if a.len() == 0 {
        assert(a + b =~= b);
        assert(spec_map_chunks(a, n, f) =~= Seq::<u8>::empty());
        assert(Seq::<u8>::empty() + f(b) =~= f(b));
    } else {
        assert(a.len() >= n) by (nonlinear_arith)
            requires a.len() % n == 0, a.len() > 0, n > 0;
        assert((a + b).take(n as int) =~= a.take(n as int));
        assert((a + b).skip(n as int) =~= a.skip(n as int) + b);
        assert(a.skip(n as int).len() % n == 0) by (nonlinear_arith)
            requires a.len() % n == 0, a.len() >= n, a.skip(n as int).len() == a.len() - n, n > 0;
        lemma_map_chunks_append(a.skip(n as int), b, n, f);
        if a.len() == n {
            assert(a.skip(n as int) =~= Seq::<u8>::empty());
            assert(a.take(n as int) =~= a);
        }
        assert(spec_map_chunks(a + b, n, f) =~= spec_map_chunks(a, n, f) + f(b));
    }
}

#[verifier::external_type_specification]
#[verifier::external_body]
pub struct ExRsaPrivateKey(rsa::RsaPrivateKey);

#[verifier::external_type_specification]
#[verifier::external_body]
pub struct ExRsaPublicKey(rsa::RsaPublicKey);

/// Whether `RsaPublicKey::from_public_key_pem` accepts the text.
pub uninterp spec fn rsa_public_key_pem_valid(pem: Seq<char>) -> bool;

/// Whether `RsaPrivateKey::from_pkcs8_pem` accepts the text.
pub uninterp spec fn rsa_private_key_pem_valid(pem: Seq<char>) -> bool;

/// What `RsaPrivateKey::decrypt` with PKCS#1 v1.5 padding gives for
/// `ciphertext`, under the private key read from `private_key_pem`.
pub uninterp spec fn rsa_pkcs1v15_decrypt(private_key_pem: Seq<char>, ciphertext: Seq<u8>) -> Option<Seq<u8>>;

/// `rsa::RsaPublicKey::from_public_key_pem`: the key, present exactly when the text is accepted.
#[verifier::external_body]
fn parse_public_key_pem(pem: &str) -> (res: Option<rsa::RsaPublicKey>)
    ensures
        res is Some == rsa_public_key_pem_valid(pem@),
{
    rsa::RsaPublicKey::from_public_key_pem(pem).ok()
}

/// The big-endian bytes of the first and the second prime of the PKCS#1 RSA
/// private key inside the PKCS#8 PEM text `pem`, as `pkcs1::RsaPrivateKey`
/// reads them; `None` when the text does not read as such a key.
pub uninterp spec fn pkcs8_rsa_primes(pem: Seq<char>) -> Option<(Seq<u8>, Seq<u8>)>;

/// Whether the big-endian number `b` is above 1.
pub open spec fn be_above_one(b: Seq<u8>) -> bool {
    b.len() > 0 && (b[b.len() - 1] >= 2 || exists|i: int| 0 <= i < b.len() - 1 && b[i] != 0)
}

/// Whether `RsaPrivateKey::from_pkcs8_pem` can be given `pem` without
/// panicking: its key precomputes `d mod (p - 1)` for both primes, which
/// panics for a prime of 0 or 1. A text that does not read as a PKCS#1 key
/// fails before that point.
pub open spec fn pkcs8_primes_safe(pem: Seq<char>) -> bool {
    match pkcs8_rsa_primes(pem) {
        Some((p, q)) => be_above_one(p) && be_above_one(q),
        None => true,
    }
}

/// Whether `pem` is a private key text that `RsaCrypto::new` takes: its
/// primes are above 1 and `from_pkcs8_pem` accepts it.
pub open spec fn rsa_private_key_usable(pem: Seq<char>) -> bool {
    &&& pkcs8_rsa_primes(pem) matches Some((p, q))
    &&& be_above_one(p)
    &&& be_above_one(q)
    &&& rsa_private_key_pem_valid(pem)
}

/// `PrivateKeyDocument::from_pkcs8_pem` and then `pkcs1::RsaPrivateKey::try_from`
/// on the document's private key field: the bytes of the two primes, present
/// exactly when both steps read the text. Neither step panics.
#[verifier::external_body]
fn read_pkcs8_rsa_primes(pem: &str) -> (res: Option<(Vec<u8>, Vec<u8>)>)
    ensures
        match res {
            Some((p, q)) => pkcs8_rsa_primes(pem@) == Some((p@, q@)),
            None => pkcs8_rsa_primes(pem@) is None,
        },
{
    let document = rsa::pkcs8::PrivateKeyDocument::from_pkcs8_pem(pem).ok()?;
    let key = rsa::pkcs1::RsaPrivateKey::try_from(document.decode().private_key).ok()?;
    Some((key.prime1.as_bytes().to_vec(), key.prime2.as_bytes().to_vec()))
}

/// Whether the big-endian number in `b` is above 1.
fn above_one(b: &Vec<u8>) -> (res: bool)
    ensures
        res == be_above_one(b@),
{
    let n = b.len();
    if n == 0 {
        return false;
    }
    if b[n - 1] >= 2 {
        return true;
    }
    let mut i: usize = 0;
    while i < n - 1
        invariant
            n == b@.len(),
            n > 0,
            i <= n - 1,
            b@[n - 1] < 2,
            forall|j: int| 0 <= j < i ==> b@[j] == 0,
        decreases n - 1 - i,
    {
        if b[i] != 0 {
            return true;
        }
        i = i + 1;
    }
    false
}

/// `rsa::RsaPrivateKey::from_pkcs8_pem`: the key, present exactly when the
/// text is accepted. Reading a key whose first or second prime is 0 or 1
/// panics in its precomputation, so such texts are left out.
#[verifier::external_body]
fn parse_private_key_pem(pem: &str) -> (res: Option<rsa::RsaPrivateKey>)
    requires
        pkcs8_primes_safe(pem@),
    ensures
        res is Some == rsa_private_key_pem_valid(pem@),
{
    rsa::RsaPrivateKey::from_pkcs8_pem(pem).ok()
}

/// What `PublicKeyParts::size` gives for the public key read from
/// `public_key_pem`: the length of its modulus in bytes.
pub uninterp spec fn rsa_public_key_size(public_key_pem: Seq<char>) -> nat;

/// Whether the private key read from `private_key_pem` is the private half of
/// the public key read from `public_key_pem`: the same modulus and public
/// exponent, primes whose product is that modulus, and a private exponent
/// that inverts the public one.
pub uninterp spec fn rsa_key_pair(public_key_pem: Seq<char>, private_key_pem: Seq<char>) -> bool;

/// `PublicKeyParts::size` of the public key of `crypto`: its modulus length in bytes.
#[verifier::external_body]
fn rsa_key_size(crypto: &RsaCrypto) -> (res: usize)
    ensures
        res == rsa_public_key_size(crypto@.0),
{
    crypto.public_key.size()
}

/// `PublicKey::encrypt` with the operating system's random generator and
/// PKCS#1 v1.5 padding, under the public key of `crypto`. A key read from PEM
/// has passed the exponent check, so the call fails exactly when the message is
/// longer than the modulus size less 11 bytes; otherwise the ciphertext is
/// padded to exactly the modulus size. Below 11 bytes of modulus the call
/// panics, so such keys are left out. The padding is random, so the bytes of
/// the ciphertext are not stated; what holds of every outcome is that PKCS#1
/// v1.5 decryption under the private half of the key gives `data` back (the
/// padding `00 02`, at least 8 non-zero random bytes, `00`, then `data`, is
/// what that decryption strips).
#[verifier::external_body]
fn rsa_encrypt(crypto: &RsaCrypto, data: &[u8]) -> (res: Option<Vec<u8>>)
    requires
        rsa_public_key_size(crypto@.0) >= 11,
    ensures
        match res {
            Some(v) => data@.len() + 11 <= rsa_public_key_size(crypto@.0) && v@.len() == rsa_public_key_size(
                crypto@.0,
            ) && forall|private_key_pem: Seq<char>| #[trigger]
                rsa_key_pair(crypto@.0, private_key_pem) ==> rsa_pkcs1v15_decrypt(private_key_pem, v@) == Some(
                    data@,
                ),
            None => data@.len() + 11 > rsa_public_key_size(crypto@.0),
        },
{
    crypto.public_key.encrypt(&mut rand::rngs::OsRng, rsa::PaddingScheme::PKCS1v15Encrypt, data).ok()
}

/// `RsaPrivateKey::decrypt` with PKCS#1 v1.5 padding: the plaintext, present
/// exactly when the ciphertext decrypts under the private key of `crypto`.
#[verifier::external_body]
fn rsa_decrypt(crypto: &RsaCrypto, data: &[u8]) -> (res: Option<Vec<u8>>)
    ensures
        match res {
            Some(v) => rsa_pkcs1v15_decrypt(crypto@.1, data@) == Some(v@),
            None => rsa_pkcs1v15_decrypt(crypto@.1, data@) is None,
        },
{
    crypto.private_key.decrypt(rsa::PaddingScheme::PKCS1v15Encrypt, data).ok()
}

/// `rsa::RsaPrivateKey::new` with the operating system's random generator and
/// 2048 bits, with the fresh key written out as PEM text: the private key by
/// `EncodePrivateKey::to_pkcs8_pem` and its public half
/// (`RsaPublicKey::from`) by `EncodePublicKey::to_public_key_pem`, both with
/// CRLF line endings. Generation fails only for fewer than two primes or under
/// 64 bits, and it repeats until the modulus has exactly 2048 bits; encoding a
/// two-prime key fails only on lengths far beyond such a key. So the texts are
/// always there: the private text is a two-prime key with primes above 1 that
/// `from_pkcs8_pem` reads back, the public text is the public half of that key
/// with a 256-byte modulus, and `from_public_key_pem` reads it back. Which key
/// comes out is chance.
#[verifier::external_body]
fn rsa_generate_key_pair_pems() -> (res: Option<(String, String)>)
    ensures
        res is Some,
        rsa_private_key_usable(res.unwrap().0@),
        rsa_public_key_pem_valid(res.unwrap().1@),
        rsa_key_pair(res.unwrap().1@, res.unwrap().0@),
        rsa_public_key_size(res.unwrap().1@) == 256,
{
    let key = rsa::RsaPrivateKey::new(&mut rand::rngs::OsRng, 2048).ok()?;
    let public_key = rsa::RsaPublicKey::from(&key);
    let private_pem = key.to_pkcs8_pem(LineEnding::CRLF).ok()?.to_string();
    let public_pem = public_key.to_public_key_pem(LineEnding::CRLF).ok()?;
    Some((private_pem, public_pem))
}

/// RSA encryption and decryption of encryption tokens: a public key to encrypt
/// with and a private key to decrypt with, and the PEM texts they were read from.
pub struct RsaCrypto {
    private_key: rsa::RsaPrivateKey,
    public_key: rsa::RsaPublicKey,
    public_key_pem: Ghost<Seq<char>>,
    private_key_pem: Ghost<Seq<char>>,
}

impl View for RsaCrypto {
    /// The public key text and the private key text.
    type V = (Seq<char>, Seq<char>);

    closed spec fn view(&self) -> (Seq<char>, Seq<char>) {
        (self.public_key_pem@, self.private_key_pem@)
    }
}

impl RsaCrypto {
    /// Reads the public key (SubjectPublicKeyInfo PEM) and the private key
    /// (PKCS#8 PEM); `CodecError` when either text is not accepted, or when
    /// a prime of the private key is 0 or 1 (on which reading would panic).
    pub fn new(public_key: &str, private_key: &str) -> (res: Result<RsaCrypto, PpaassError>)
        ensures
            match res {
                Ok(c) => c@ == (public_key@, private_key@) && rsa_public_key_pem_valid(public_key@)
                    && rsa_private_key_usable(private_key@),
                Err(e) => e is CodecError && !(rsa_public_key_pem_valid(public_key@) && rsa_private_key_usable(
                    private_key@,
                )),
            },
    {
        let public_key_parsed = match parse_public_key_pem(public_key) {
            Some(v) => v,
            None => return Err(PpaassError::CodecError),
        };
        match read_pkcs8_rsa_primes(private_key) {
            Some((p, q)) => {
                if !above_one(&p) || !above_one(&q) {
                    return Err(PpaassError::CodecError);
                }
            },
            None => return Err(PpaassError::CodecError),
        }
        let private_key_parsed = match parse_private_key_pem(private_key) {
            Some(v) => v,
            None => return Err(PpaassError::CodecError),
        };
        Ok(RsaCrypto {
            private_key: private_key_parsed,
            public_key: public_key_parsed,
            public_key_pem: Ghost(public_key@),
            private_key_pem: Ghost(private_key@),
        })
    }

    /// The length of the public key's modulus in bytes, which is the length of
    /// every ciphertext that [`RsaCrypto::encrypt`] gives.
    pub fn public_key_size(&self) -> (res: usize)
        ensures
            res == rsa_public_key_size(self@.0),
    {
        rsa_key_size(self)
    }

    /// Encrypts `target` with the public key (PKCS#1 v1.5, random padding): a
    /// ciphertext of exactly the modulus size, or `CodecError` when `target` is
    /// longer than the modulus size less 11 bytes. The key must have a modulus
    /// of at least 11 bytes (see [`RsaCrypto::public_key_size`]). The private
    /// half of the public key decrypts the ciphertext back into `target`.
    pub fn encrypt(&self, target: &[u8]) -> (res: Result<Vec<u8>, PpaassError>)
        requires
            rsa_public_key_size(self@.0) >= 11,
        ensures
            match res {
                Ok(v) => target@.len() + 11 <= rsa_public_key_size(self@.0) && v@.len() == rsa_public_key_size(
                    self@.0,
                ) && forall|private_key_pem: Seq<char>| #[trigger]
                    rsa_key_pair(self@.0, private_key_pem) ==> rsa_pkcs1v15_decrypt(private_key_pem, v@) == Some(
                        target@,
                    ),
                Err(e) => e is CodecError && target@.len() + 11 > rsa_public_key_size(self@.0),
            },
    {
        match rsa_encrypt(self, target) {
            Some(v) => Ok(v),
            None => Err(PpaassError::CodecError),
        }
    }

    /// Decrypts `target` with the private key; `CodecError` exactly when it does not decrypt.
    pub fn decrypt(&self, target: &[u8]) -> (res: Result<Vec<u8>, PpaassError>)
        ensures
            match res {
                Ok(v) => rsa_pkcs1v15_decrypt(self@.1, target@) == Some(v@),
                Err(e) => e is CodecError && rsa_pkcs1v15_decrypt(self@.1, target@) is None,
            },
    {
        match rsa_decrypt(self, target) {
            Some(v) => Ok(v),
            None => Err(PpaassError::CodecError),
        }
    }
}

/// Finds the RSA crypto of a user by the user token.
pub trait RsaCryptoFetcher {
    /// The public and private key texts of the crypto this fetcher holds for
    /// `user_token`, if it holds one.
    spec fn crypto_of(&self, user_token: Seq<char>) -> Option<(Seq<char>, Seq<char>)>;

    /// The crypto of the user with this token: the one [`RsaCryptoFetcher::crypto_of`]
    /// names; `Ok(None)` or an error when there is none.
    fn fetch(&self, user_token: &str) -> (res: Result<Option<&RsaCrypto>, PpaassError>)
        ensures
            match self.crypto_of(user_token@) {
                Some(v) => res matches Ok(Some(c)) && c@ == v,
                None => !(res matches Ok(Some(_))),
            },
    ;
}

/// A freshly generated RSA key pair and the files it is to be written to.
pub struct RsaKeyPairFiles {
    /// Where the private key goes.
    pub private_key_path: String,
    /// Where the public key goes.
    pub public_key_path: String,
    /// The private key, PKCS#8 PEM.
    pub private_key_pem: String,
    /// The public key, SubjectPublicKeyInfo PEM.
    pub public_key_pem: String,
}

/// `base_dir/user_token/file`.
pub open spec fn spec_key_path(base_dir: Seq<char>, user_token: Seq<char>, file: Seq<char>) -> Seq<char> {
    base_dir + seq!['/'] + user_token + seq!['/'] + file
}

fn key_path(base_dir: &str, user_token: &str, file: &str) -> (res: String)
    ensures
        res@ == spec_key_path(base_dir@, user_token@, file@),
{
    let mut path = base_dir.to_owned();
    path.append("/");
    path.append(user_token);
    path.append("/");
    path.append(file);
    proof {
        reveal_strlit("/");
    }
    assert(path@ =~= spec_key_path(base_dir@, user_token@, file@));
    path
}

/// Whether `f` holds a working key pair: a private key text that
/// [`RsaCrypto::new`] takes, and the public half of that key with a 256-byte
/// modulus, whose text it takes too.
pub open spec fn key_pair_files_valid(f: RsaKeyPairFiles) -> bool {
    &&& rsa_private_key_usable(f.private_key_pem@)
    &&& rsa_public_key_pem_valid(f.public_key_pem@)
    &&& rsa_key_pair(f.public_key_pem@, f.private_key_pem@)
    &&& rsa_public_key_size(f.public_key_pem@) == 256
}

/// Generates a fresh RSA key pair and names the files for it.
fn generate_rsa_key_pairs(private_key_path: String, public_key_path: String) -> (res: Result<RsaKeyPairFiles, PpaassError>)
    ensures
        res matches Ok(f) && f.private_key_path == private_key_path && f.public_key_path == public_key_path
            && key_pair_files_valid(f),
{
    let (private_key_pem, public_key_pem) = match rsa_generate_key_pair_pems() {
        Some(p) => p,
        None => return Err(PpaassError::CodecError),
    };
    Ok(RsaKeyPairFiles { private_key_path, public_key_path, private_key_pem, public_key_pem })
}

/// Generates the key pair of an agent user: the private key goes to
/// `base_dir/user_token/AgentPrivateKey.pem` and the public key to
/// `base_dir/user_token/AgentPublicKey.pem`. The two texts are a working key
/// pair (see [`key_pair_files_valid`]).
pub fn generate_agent_key_pairs(base_dir: &str, user_token: &str) -> (res: Result<RsaKeyPairFiles, PpaassError>)
    ensures
        res matches Ok(f) && f.private_key_path@ == spec_key_path(base_dir@, user_token@, "AgentPrivateKey.pem"@)
            && f.public_key_path@ == spec_key_path(base_dir@, user_token@, "AgentPublicKey.pem"@)
            && key_pair_files_valid(f),
{
    let private_key_path = key_path(base_dir, user_token, "AgentPrivateKey.pem");
    let public_key_path = key_path(base_dir, user_token, "AgentPublicKey.pem");
    generate_rsa_key_pairs(private_key_path, public_key_path)
}

/// Generates the key pair of a proxy user: the private key goes to
/// `base_dir/user_token/ProxyPrivateKey.pem` and the public key to
/// `base_dir/user_token/ProxyPublicKey.pem`. The two texts are a working key
/// pair (see [`key_pair_files_valid`]).
pub fn generate_proxy_key_pairs(base_dir: &str, user_token: &str) -> (res: Result<RsaKeyPairFiles, PpaassError>)
    ensures
        res matches Ok(f) && f.private_key_path@ == spec_key_path(base_dir@, user_token@, "ProxyPrivateKey.pem"@)
            && f.public_key_path@ == spec_key_path(base_dir@, user_token@, "ProxyPublicKey.pem"@)
            && key_pair_files_valid(f),
{
    let private_key_path = key_path(base_dir, user_token, "ProxyPrivateKey.pem");
    let public_key_path = key_path(base_dir, user_token, "ProxyPublicKey.pem");
    generate_rsa_key_pairs(private_key_path, public_key_path)
}

} // verus!
