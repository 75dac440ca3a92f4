//! The message exchanged between agent and proxy, and its wire form.
use vstd::prelude::*;
use vstd::seq_lib::lemma_concat_associative;
use vstd::utf8::{decode_utf8, encode_utf8, encode_utf8_decode_utf8, encode_utf8_valid_utf8, valid_utf8};

use crate::error::PpaassError;
use crate::payload::{
    encryption_type_wf, lemma_encryption_type_roundtrip, spec_decode_encryption_type, spec_encode_encryption_type,
    PayloadEncryptionType, SpecEncryptionType,
};
use crate::text::{generate_uuid, is_generated_id, string_bytes, string_from_utf8};
use crate::wire::{
    be_u32, be_u32_at, be_u64, be_u64_at, copy_range, get_u32, get_u64, lemma_read_u32, lemma_read_u64, put_slice,
    put_u32, put_u64,
};

verus! {

/// A message: its id, the id of the message it answers, the connection it
/// belongs to, the user token, how the payload is encrypted, and the payload bytes.
#[derive(Debug)]
pub struct Message {
    /// The message id.
    pub id: String,
    /// The id of the message this one refers to.
    pub ref_id: Option<String>,
    /// The connection that started this message.
    pub connection_id: Option<String>,
    /// The user token.
    pub user_token: String,
    /// How the payload is encrypted.
    pub payload_encryption_type: PayloadEncryptionType,
    /// The payload.
    pub payload: Option<Vec<u8>>,
}

/// The mathematical model of a [`Message`].
pub struct SpecMessage {
    pub id: Seq<char>,
    pub ref_id: Option<Seq<char>>,
    pub connection_id: Option<Seq<char>>,
    pub user_token: Seq<char>,
    pub payload_encryption_type: SpecEncryptionType,
    pub payload: Option<Seq<u8>>,
}

/// The view of an optional string.
pub open spec fn opt_string_view(o: Option<String>) -> Option<Seq<char>> {
    match o {
        Some(s) => Some(s@),
        None => None,
    }
}

/// The view of an optional byte vector.
pub open spec fn opt_bytes_view(o: Option<Vec<u8>>) -> Option<Seq<u8>> {
    match o {
        Some(v) => Some(v@),
        None => None,
    }
}

impl View for Message {
    type V = SpecMessage;

    open spec fn view(&self) -> SpecMessage {
        SpecMessage {
            id: self.id@,
            ref_id: opt_string_view(self.ref_id),
            connection_id: opt_string_view(self.connection_id),
            user_token: self.user_token@,
            payload_encryption_type: self.payload_encryption_type@,
            payload: opt_bytes_view(self.payload),
        }
    }
}

/// A string with a 32-bit big-endian byte-length prefix.
pub open spec fn spec_encode_str32(s: Seq<char>) -> Seq<u8> {
    be_u32(encode_utf8(s).len() as u32) + encode_utf8(s)
}

/// An optional string with a 32-bit length prefix; an absent string is a zero length.
pub open spec fn spec_encode_opt_str32(o: Option<Seq<char>>) -> Seq<u8> {
    match o {
        Some(s) => spec_encode_str32(s),
        None => be_u32(0),
    }
}

/// The payload field: a 64-bit length, then the bytes; an absent payload is a zero length.
pub open spec fn spec_encode_payload_field(p: Option<Seq<u8>>) -> Seq<u8> {
    match p {
        None => be_u64(0),
        Some(p) => be_u64(p.len() as u64) + p,
    }
}

/// The payload field at `pos` of `s` holds `payload`.
#[verifier::opaque]
pub open spec fn payload_field_at(s: Seq<u8>, pos: int, payload: Option<Seq<u8>>) -> bool {
    &&& 0 <= pos
    &&& s.len() - pos >= 8
    &&& match payload {
        None => be_u64_at(s, pos) == 0,
        Some(p) => be_u64_at(s, pos) as usize as int == p.len() && s.len() - pos - 8 >= p.len()
            && s.subrange(pos + 8, pos + 8 + p.len()) == p,
    }
}

/// Wire form: id, reference id and connection id each with a 32-bit length,
/// user token with a 64-bit length, the encryption type, then the payload with
/// a 64-bit length (an absent payload is a zero length).
pub open spec fn spec_encode_message(m: SpecMessage) -> Seq<u8> {
    spec_encode_str32(m.id) + spec_encode_opt_str32(m.ref_id) + spec_encode_opt_str32(m.connection_id)
        + be_u64(encode_utf8(m.user_token).len() as u64) + encode_utf8(m.user_token)
        + spec_encode_encryption_type(m.payload_encryption_type) + spec_encode_payload_field(m.payload)
}

/// Reads a string with a 32-bit length prefix at `pos`.
#[verifier::opaque]
pub open spec fn spec_read_str32(s: Seq<u8>, pos: int) -> Option<(Seq<char>, int)> {
    if pos < 0 || s.len() - pos < 4 {
        None
    } else {
        let n = be_u32_at(s, pos) as usize as int;
        if s.len() - pos - 4 < n {
            None
        } else if !valid_utf8(s.subrange(pos + 4, pos + 4 + n)) {
            None
        } else {
            Some((decode_utf8(s.subrange(pos + 4, pos + 4 + n)), pos + 4 + n))
        }
    }
}

/// Reads a string with a 64-bit length prefix at `pos`.
#[verifier::opaque]
pub open spec fn spec_read_str64(s: Seq<u8>, pos: int) -> Option<(Seq<char>, int)> {
    if pos < 0 || s.len() - pos < 8 {
        None
    } else {
        let n = be_u64_at(s, pos) as usize as int;
        if s.len() - pos - 8 < n {
            None
        } else if !valid_utf8(s.subrange(pos + 8, pos + 8 + n)) {
            None
        } else {
            Some((decode_utf8(s.subrange(pos + 8, pos + 8 + n)), pos + 8 + n))
        }
    }
}

/// The bytes whose reading runs past their end: the id and the reference id
/// are read, and fewer than four bytes are left for the connection id length.
/// Reading such bytes is left out of [`Message::decode`].
#[verifier::opaque]
pub open spec fn spec_message_overruns(s: Seq<u8>) -> bool {
    match spec_read_str32(s, 0) {
        None => false,
        Some((_, p1)) => match spec_read_str32(s, p1) {
            None => false,
            Some((_, p2)) => s.len() - p2 < 4,
        },
    }
}

/// Reads a message from the start of `s`. The reference id and the connection
/// id always come back present (empty when they were written absent), and a
/// zero-length payload comes back absent. Bytes after the payload are ignored.
#[verifier::opaque]
pub open spec fn spec_decode_message(s: Seq<u8>) -> Option<SpecMessage> {
    match spec_read_str32(s, 0) {
        None => None,
        Some((id, p1)) => match spec_read_str32(s, p1) {
            None => None,
            Some((ref_id, p2)) => match spec_read_str32(s, p2) {
                None => None,
                Some((connection_id, p3)) => match spec_read_str64(s, p3) {
                    None => None,
                    Some((user_token, p4)) => match spec_decode_encryption_type(s, p4) {
                        None => None,
                        Some((payload_encryption_type, p5)) => if s.len() - p5 < 8 {
                            None
                        } else {
                            let n = be_u64_at(s, p5) as usize as int;
                            if n == 0 {
                                Some(SpecMessage {
                                    id,
                                    ref_id: Some(ref_id),
                                    connection_id: Some(connection_id),
                                    user_token,
                                    payload_encryption_type,
                                    payload: None,
                                })
                            } else if s.len() - p5 - 8 >= n {
                                Some(SpecMessage {
                                    id,
                                    ref_id: Some(ref_id),
                                    connection_id: Some(connection_id),
                                    user_token,
                                    payload_encryption_type,
                                    payload: Some(s.subrange(p5 + 8, p5 + 8 + n)),
                                })
                            } else {
                                None
                            }
                        },
                    },
                },
            },
        },
    }
}

/// A message whose lengths fit their length fields.
pub open spec fn message_wf(m: SpecMessage) -> bool {
    &&& encode_utf8(m.id).len() <= u32::MAX
    &&& (m.ref_id matches Some(r) ==> encode_utf8(r).len() <= u32::MAX)
    &&& (m.connection_id matches Some(c) ==> encode_utf8(c).len() <= u32::MAX)
    &&& encode_utf8(m.user_token).len() <= usize::MAX
    &&& encryption_type_wf(m.payload_encryption_type)
    &&& (m.payload matches Some(p) ==> p.len() <= usize::MAX)
}

/// What reading gives back of a written message: absent reference and
/// connection ids come back empty, and an empty payload comes back absent.
pub open spec fn spec_normalize_message(m: SpecMessage) -> SpecMessage {
    SpecMessage {
        id: m.id,
        ref_id: Some(
            match m.ref_id {
                Some(r) => r,
                None => Seq::empty(),
            },
        ),
        connection_id: Some(
            match m.connection_id {
                Some(c) => c,
                None => Seq::empty(),
            },
        ),
        user_token: m.user_token,
        payload_encryption_type: m.payload_encryption_type,
        payload: match m.payload {
            Some(p) => if p.len() == 0 {
                None
            } else {
                Some(p)
            },
            None => None,
        },
    }
}

proof fn lemma_read_str32(s: Seq<u8>, pos: int, v: Seq<char>)
    requires
        0 <= pos,
        encode_utf8(v).len() <= u32::MAX,
        pos + spec_encode_str32(v).len() <= s.len(),
        s.subrange(pos, pos + spec_encode_str32(v).len()) == spec_encode_str32(v),
    ensures
        spec_read_str32(s, pos) == Some((v, pos + spec_encode_str32(v).len() as int)),
{
    reveal(spec_read_str32);
    let b = encode_utf8(v);
    let n = b.len() as int;
    let w = s.subrange(pos, pos + spec_encode_str32(v).len());
    assert(s.subrange(pos, pos + 4) =~= w.subrange(0, 4));
    assert(w.subrange(0, 4) =~= be_u32(n as u32));
    lemma_read_u32(s, pos, n as u32);
    assert(s.subrange(pos + 4, pos + 4 + n) =~= w.subrange(4, 4 + n));
    assert(w.subrange(4, 4 + n) =~= b);
    encode_utf8_valid_utf8(v);
    encode_utf8_decode_utf8(v);
}

proof fn lemma_empty_text()
    ensures
        encode_utf8(Seq::<char>::empty()) == Seq::<u8>::empty(),
        valid_utf8(Seq::<u8>::empty()),
        decode_utf8(Seq::<u8>::empty()) == Seq::<char>::empty(),
{
    encode_utf8_valid_utf8(Seq::<char>::empty());
    encode_utf8_decode_utf8(Seq::<char>::empty());
    assert(encode_utf8(Seq::<char>::empty()) =~= Seq::<u8>::empty());
}

proof fn lemma_read_opt_str32(s: Seq<u8>, pos: int, o: Option<Seq<char>>)
    requires
        0 <= pos,
        o matches Some(v) ==> encode_utf8(v).len() <= u32::MAX,
        pos + spec_encode_opt_str32(o).len() <= s.len(),
        s.subrange(pos, pos + spec_encode_opt_str32(o).len()) == spec_encode_opt_str32(o),
    ensures
        spec_read_str32(s, pos) == Some(
            (
                match o {
                    Some(v) => v,
                    None => Seq::<char>::empty(),
                },
                pos + spec_encode_opt_str32(o).len() as int,
            ),
        ),
{
    match o {
        Some(v) => lemma_read_str32(s, pos, v),
        None => {
            lemma_empty_text();
            assert(spec_encode_str32(Seq::<char>::empty()) =~= be_u32(0));
            lemma_read_str32(s, pos, Seq::<char>::empty());
        },
    }
}

proof fn lemma_concat_subrange(pre: Seq<u8>, e: Seq<u8>, post: Seq<u8>)
    ensures
        (pre + e + post).subrange(pre.len() as int, pre.len() + e.len() as int) == e,
        (pre + e + post).len() == pre.len() + e.len() + post.len(),
{
    assert((pre + e + post).subrange(pre.len() as int, pre.len() + e.len() as int) =~= e);
}

/// What `spec_decode_message` makes of bytes whose fields read as given.
proof fn lemma_message_assemble(
    s: Seq<u8>,
    m: SpecMessage,
    p1: int,
    p2: int,
    p3: int,
    p4: int,
    p5: int,
)
    requires
        spec_read_str32(s, 0) == Some((m.id, p1)),
        spec_read_str32(s, p1) == Some((
            match m.ref_id {
                Some(r) => r,
                None => Seq::<char>::empty(),
            },
            p2,
        )),
        spec_read_str32(s, p2) == Some((
            match m.connection_id {
                Some(c) => c,
                None => Seq::<char>::empty(),
            },
            p3,
        )),
        spec_read_str64(s, p3) == Some((m.user_token, p4)),
        spec_decode_encryption_type(s, p4) == Some((m.payload_encryption_type, p5)),
        payload_field_at(s, p5, m.payload),
    ensures
        !spec_message_overruns(s),
        spec_decode_message(s) == Some(spec_normalize_message(m)),
{
    reveal(spec_decode_message);
    reveal(spec_message_overruns);
    reveal(spec_read_str32);
    reveal(payload_field_at);
    assert(spec_decode_message(s) =~~= Some(spec_normalize_message(m)));
}

proof fn lemma_str32_in(pre: Seq<u8>, v: Seq<char>, post: Seq<u8>)
    requires
        encode_utf8(v).len() <= u32::MAX,
    ensures
        spec_read_str32(pre + spec_encode_str32(v) + post, pre.len() as int)
            == Some((v, pre.len() + spec_encode_str32(v).len() as int)),
{
    let e = spec_encode_str32(v);
    lemma_concat_subrange(pre, e, post);
    lemma_read_str32(pre + e + post, pre.len() as int, v);
}

proof fn lemma_opt_str32_in(pre: Seq<u8>, o: Option<Seq<char>>, post: Seq<u8>)
    requires
        o matches Some(v) ==> encode_utf8(v).len() <= u32::MAX,
    ensures
        spec_read_str32(pre + spec_encode_opt_str32(o) + post, pre.len() as int) == Some(
            (
                match o {
                    Some(v) => v,
                    None => Seq::<char>::empty(),
                },
                pre.len() + spec_encode_opt_str32(o).len() as int,
            ),
        ),
{
    let e = spec_encode_opt_str32(o);
    lemma_concat_subrange(pre, e, post);
    lemma_read_opt_str32(pre + e + post, pre.len() as int, o);
}

proof fn lemma_str64_in(pre: Seq<u8>, v: Seq<char>, post: Seq<u8>)
    requires
        encode_utf8(v).len() <= usize::MAX,
    ensures
        spec_read_str64(pre + (be_u64(encode_utf8(v).len() as u64) + encode_utf8(v)) + post, pre.len() as int)
            == Some((v, pre.len() + 8 + encode_utf8(v).len() as int)),
{
    reveal(spec_read_str64);
    let tb = encode_utf8(v);
    let n = tb.len() as int;
    let s = pre + (be_u64(n as u64) + tb) + post;
    assert(s =~= pre + be_u64(n as u64) + (tb + post));
    lemma_concat_subrange(pre, be_u64(n as u64), tb + post);
    lemma_read_u64(s, pre.len() as int, n as u64);
    assert((n as u64) as usize as int == n);
    assert(s =~= (pre + be_u64(n as u64)) + tb + post);
    lemma_concat_subrange(pre + be_u64(n as u64), tb, post);
    encode_utf8_valid_utf8(v);
    encode_utf8_decode_utf8(v);
}

proof fn lemma_payload_tail_in(pre: Seq<u8>, payload: Option<Seq<u8>>, rest: Seq<u8>)
    requires
        payload matches Some(p) ==> p.len() <= usize::MAX,
    ensures
        payload_field_at(pre + spec_encode_payload_field(payload) + rest, pre.len() as int, payload),
{
    reveal(payload_field_at);
    let p5 = pre.len() as int;
    match payload {
        None => {
            lemma_concat_subrange(pre, be_u64(0), rest);
            lemma_read_u64(pre + be_u64(0) + rest, p5, 0);
        },
        Some(p) => {
            let s = pre + (be_u64(p.len() as u64) + p) + rest;
            assert(s =~= pre + be_u64(p.len() as u64) + (p + rest));
            lemma_concat_subrange(pre, be_u64(p.len() as u64), p + rest);
            lemma_read_u64(s, p5, p.len() as u64);
            assert((p.len() as u64) as usize as int == p.len());
            assert(s =~= (pre + be_u64(p.len() as u64)) + p + rest);
            lemma_concat_subrange(pre + be_u64(p.len() as u64), p, rest);
        },
    }
}

/// Reading a written message back, whatever follows it, gives the message
/// back up to [`spec_normalize_message`], and never runs past the end.
pub proof fn lemma_message_roundtrip(m: SpecMessage, rest: Seq<u8>)
    requires
        message_wf(m),
    ensures
        !spec_message_overruns(spec_encode_message(m) + rest),
        spec_decode_message(spec_encode_message(m) + rest) == Some(spec_normalize_message(m)),
{
    let e1 = spec_encode_str32(m.id);
    let e2 = spec_encode_opt_str32(m.ref_id);
    let e3 = spec_encode_opt_str32(m.connection_id);
    let tb = encode_utf8(m.user_token);
    let e4 = be_u64(tb.len() as u64) + tb;
    let e5 = spec_encode_encryption_type(m.payload_encryption_type);
    let e6 = spec_encode_payload_field(m.payload);
    let s = spec_encode_message(m) + rest;
    let a1 = e1;
    let a2 = a1 + e2;
    let a3 = a2 + e3;
    let a4 = a3 + e4;
    let a5 = a4 + e5;
    assert(spec_encode_message(m) == a5 + e6);
    let t5 = e6 + rest;
    let t4 = e5 + t5;
    let t3 = e4 + t4;
    let t2 = e3 + t3;
    let t1 = e2 + t2;
    lemma_concat_associative(a5, e6, rest);
    lemma_concat_associative(a4, e5, t5);
    lemma_concat_associative(a3, e4, t4);
    lemma_concat_associative(a2, e3, t3);
    lemma_concat_associative(a1, e2, t2);
    assert(s == a1 + t1);
    lemma_concat_associative(Seq::<u8>::empty(), e1, t1);
    assert(Seq::<u8>::empty() + e1 =~= e1);
    lemma_str32_in(Seq::<u8>::empty(), m.id, t1);
    lemma_opt_str32_in(a1, m.ref_id, t2);
    lemma_opt_str32_in(a2, m.connection_id, t3);
    lemma_str64_in(a3, m.user_token, t4);
    lemma_encryption_type_roundtrip(m.payload_encryption_type, a4, t5);
    lemma_payload_tail_in(a5, m.payload, rest);
    lemma_message_assemble(s, m, a1.len() as int, a2.len() as int, a3.len() as int, a4.len() as int, a5.len() as int);
}

/// A read of a string with a 32-bit length in `s` reads the same in a prefix
/// of `s` that holds the whole field, and fails in a shorter prefix.
proof fn lemma_read_str32_prefix(s: Seq<u8>, pos: int, k: int)
    requires
        0 <= pos,
        0 <= k <= s.len(),
        spec_read_str32(s, pos) is Some,
    ensures
        spec_read_str32(s, pos).unwrap().1 <= k ==> spec_read_str32(s.take(k), pos) == spec_read_str32(s, pos),
        spec_read_str32(s, pos).unwrap().1 > k ==> spec_read_str32(s.take(k), pos) is None,
{
    reveal(spec_read_str32);
    let t = s.take(k);
    if pos + 4 <= k {
        assert(be_u32_at(t, pos) == be_u32_at(s, pos));
        let n = be_u32_at(s, pos) as usize as int;
        if pos + 4 + n <= k {
            assert(t.subrange(pos + 4, pos + 4 + n) =~= s.subrange(pos + 4, pos + 4 + n));
        }
    }
}

/// A read of a string with a 64-bit length in `s` reads the same in a prefix
/// of `s` that holds the whole field, and fails in a shorter prefix.
proof fn lemma_read_str64_prefix(s: Seq<u8>, pos: int, k: int)
    requires
        0 <= pos,
        0 <= k <= s.len(),
        spec_read_str64(s, pos) is Some,
    ensures
        spec_read_str64(s, pos).unwrap().1 <= k ==> spec_read_str64(s.take(k), pos) == spec_read_str64(s, pos),
        spec_read_str64(s, pos).unwrap().1 > k ==> spec_read_str64(s.take(k), pos) is None,
{
    reveal(spec_read_str64);
    let t = s.take(k);
    if pos + 8 <= k {
        assert(be_u64_at(t, pos) == be_u64_at(s, pos));
        let n = be_u64_at(s, pos) as usize as int;
        if pos + 8 + n <= k {
            assert(t.subrange(pos + 8, pos + 8 + n) =~= s.subrange(pos + 8, pos + 8 + n));
        }
    }
}

/// A read of an encryption type in `s` reads the same in a prefix of `s`
/// that holds the whole field, and fails in a shorter prefix.
proof fn lemma_read_encryption_type_prefix(s: Seq<u8>, pos: int, k: int)
    requires
        0 <= pos,
        0 <= k <= s.len(),
        spec_decode_encryption_type(s, pos) is Some,
    ensures
        spec_decode_encryption_type(s, pos).unwrap().1 <= k ==> spec_decode_encryption_type(s.take(k), pos)
            == spec_decode_encryption_type(s, pos),
        spec_decode_encryption_type(s, pos).unwrap().1 > k ==> spec_decode_encryption_type(s.take(k), pos) is None,
{
    let t = s.take(k);
    if pos + 5 <= k {
        assert(t[pos] == s[pos]);
        assert(be_u32_at(t, pos + 1) == be_u32_at(s, pos + 1));
        let n = be_u32_at(s, pos + 1) as usize as int;
        if pos + 5 + n <= k {
            assert(t.subrange(pos + 5, pos + 5 + n) =~= s.subrange(pos + 5, pos + 5 + n));
        }
    }
}

/// Where the fields of a written message stand: the ends of the id, the
/// reference id, the connection id, the user token and the encryption type,
/// then the payload field up to the end.
proof fn lemma_message_fields(m: SpecMessage) -> (p: (int, int, int, int, int))
    requires
        message_wf(m),
    ensures
        0 <= p.0 <= p.1 <= p.2 <= p.3 <= p.4,
        spec_read_str32(spec_encode_message(m), 0) matches Some((_, q)) && q == p.0,
        spec_read_str32(spec_encode_message(m), p.0) matches Some((_, q)) && q == p.1,
        spec_read_str32(spec_encode_message(m), p.1) matches Some((_, q)) && q == p.2,
        spec_read_str64(spec_encode_message(m), p.2) matches Some((_, q)) && q == p.3,
        spec_decode_encryption_type(spec_encode_message(m), p.3) matches Some((_, q)) && q == p.4,
        payload_field_at(spec_encode_message(m), p.4, m.payload),
        spec_encode_message(m).len() == p.4 + 8 + match m.payload {
            Some(b) => b.len(),
            None => 0,
        },
{
    let e1 = spec_encode_str32(m.id);
    let e2 = spec_encode_opt_str32(m.ref_id);
    let e3 = spec_encode_opt_str32(m.connection_id);
    let tb = encode_utf8(m.user_token);
    let e4 = be_u64(tb.len() as u64) + tb;
    let e5 = spec_encode_encryption_type(m.payload_encryption_type);
    let e6 = spec_encode_payload_field(m.payload);
    let rest = Seq::<u8>::empty();
    let s = spec_encode_message(m);
    let a1 = e1;
    let a2 = a1 + e2;
    let a3 = a2 + e3;
    let a4 = a3 + e4;
    let a5 = a4 + e5;
    assert(s == a5 + e6);
    let t5 = e6 + rest;
    let t4 = e5 + t5;
    let t3 = e4 + t4;
    let t2 = e3 + t3;
    let t1 = e2 + t2;
    assert(a5 + e6 + rest =~= a5 + e6);
    lemma_concat_associative(a5, e6, rest);
    lemma_concat_associative(a4, e5, t5);
    lemma_concat_associative(a3, e4, t4);
    lemma_concat_associative(a2, e3, t3);
    lemma_concat_associative(a1, e2, t2);
    lemma_concat_associative(Seq::<u8>::empty(), e1, t1);
    assert(Seq::<u8>::empty() + e1 =~= e1);
    lemma_str32_in(Seq::<u8>::empty(), m.id, t1);
    lemma_opt_str32_in(a1, m.ref_id, t2);
    lemma_opt_str32_in(a2, m.connection_id, t3);
    lemma_str64_in(a3, m.user_token, t4);
    lemma_encryption_type_roundtrip(m.payload_encryption_type, a4, t5);
    lemma_payload_tail_in(a5, m.payload, rest);
    (a1.len() as int, a2.len() as int, a3.len() as int, a4.len() as int, a5.len() as int)
}

/// Reading a cut-off message: no strict prefix of a written message reads as
/// a message (so [`Message::decode`] answers it with `CodecError`), apart from
/// the prefixes cut inside the connection id's length, whose reading would run
/// past the end and is left out (see [`spec_message_overruns`]).
pub proof fn lemma_truncated_message_refused(m: SpecMessage, k: int)
    requires
        message_wf(m),
        0 <= k < spec_encode_message(m).len(),
        !spec_message_overruns(spec_encode_message(m).take(k)),
    ensures
        spec_decode_message(spec_encode_message(m).take(k)) is None,
{
    let s = spec_encode_message(m);
    let (p1, p2, p3, p4, p5) = lemma_message_fields(m);
    let t = s.take(k);
    lemma_read_str32_prefix(s, 0, k);
    lemma_read_str32_prefix(s, p1, k);
    lemma_read_str32_prefix(s, p2, k);
    lemma_read_str64_prefix(s, p3, k);
    lemma_read_encryption_type_prefix(s, p4, k);
    if k < p1 {
        assert(spec_read_str32(t, 0) is None);
        assert(spec_decode_message(t) is None) by {
            reveal(spec_decode_message);
        }
    } else if k < p2 {
        assert(spec_read_str32(t, p1) is None);
        assert(spec_decode_message(t) is None) by {
            reveal(spec_decode_message);
        }
    } else if k < p3 {
        assert(spec_read_str32(t, p2) is None);
        assert(spec_decode_message(t) is None) by {
            reveal(spec_decode_message);
        }
    } else if k < p4 {
        assert(spec_read_str64(t, p3) is None);
        assert(spec_decode_message(t) is None) by {
            reveal(spec_decode_message);
        }
    } else if k < p5 {
        assert(spec_decode_encryption_type(t, p4) is None);
        assert(spec_decode_message(t) is None) by {
            reveal(spec_decode_message);
        }
    } else {
        assert(spec_read_str32(t, 0) == spec_read_str32(s, 0));
        assert(spec_read_str32(t, p1) == spec_read_str32(s, p1));
        assert(spec_read_str32(t, p2) == spec_read_str32(s, p2));
        assert(spec_read_str64(t, p3) == spec_read_str64(s, p3));
        assert(spec_decode_encryption_type(t, p4) == spec_decode_encryption_type(s, p4));
        if k >= p5 + 8 {
            assert(be_u64_at(t, p5) == be_u64_at(s, p5));
            assert(be_u64_at(s, p5) as usize as int == match m.payload {
                Some(b) => b.len(),
                None => 0,
            }) by {
                reveal(payload_field_at);
            }
        }
        assert(spec_decode_message(t) is None) by {
            reveal(spec_decode_message);
        }
    }
}

fn put_str32(buf: &mut Vec<u8>, s: &String)
    ensures
        final(buf)@ == old(buf)@ + spec_encode_str32(s@),
{
    let bytes = string_bytes(s);
    put_u32(buf, bytes.len() as u32);
    put_slice(buf, bytes);
    assert(buf@ =~= old(buf)@ + spec_encode_str32(s@));
}

fn put_opt_str32(buf: &mut Vec<u8>, o: &Option<String>)
    ensures
        final(buf)@ == old(buf)@ + spec_encode_opt_str32(opt_string_view(*o)),
{
    match o {
        Some(s) => put_str32(buf, s),
        None => put_u32(buf, 0),
    }
}

fn read_str32(s: &[u8], pos: usize) -> (res: Result<(String, usize), PpaassError>)
    ensures
        match res {
            Ok((v, p)) => spec_read_str32(s@, pos as int) == Some((v@, p as int)) && pos + 4 <= p <= s@.len(),
            Err(e) => spec_read_str32(s@, pos as int) is None && e is CodecError,
        },
{
    proof {
        reveal(spec_read_str32);
    }
    let len = s.len();
    if pos > len || len - pos < 4 {
        return Err(PpaassError::CodecError);
    }
    let n = get_u32(s, pos) as usize;
    if len - pos - 4 < n {
        return Err(PpaassError::CodecError);
    }
    let bytes = copy_range(s, pos + 4, pos + 4 + n);
    match string_from_utf8(bytes) {
        Some(v) => Ok((v, pos + 4 + n)),
        None => Err(PpaassError::CodecError),
    }
}

fn read_str64(s: &[u8], pos: usize) -> (res: Result<(String, usize), PpaassError>)
    ensures
        match res {
            Ok((v, p)) => spec_read_str64(s@, pos as int) == Some((v@, p as int)) && pos + 8 <= p <= s@.len(),
            Err(e) => spec_read_str64(s@, pos as int) is None && e is CodecError,
        },
{
    proof {
        reveal(spec_read_str64);
    }
    let len = s.len();
    if pos > len || len - pos < 8 {
        return Err(PpaassError::CodecError);
    }
    let n = get_u64(s, pos) as usize;
    if len - pos - 8 < n {
        return Err(PpaassError::CodecError);
    }
    let bytes = copy_range(s, pos + 8, pos + 8 + n);
    match string_from_utf8(bytes) {
        Some(v) => Ok((v, pos + 8 + n)),
        None => Err(PpaassError::CodecError),
    }
}

impl Message {
    /// A message from its parts.
    pub fn new(
        id: String,
        ref_id: Option<String>,
        connection_id: Option<String>,
        user_token: String,
        payload_encryption_type: PayloadEncryptionType,
        payload: Option<Vec<u8>>,
    ) -> (res: Self)
        ensures
            res.id == id,
            res.ref_id == ref_id,
            res.connection_id == connection_id,
            res.user_token == user_token,
            res.payload_encryption_type == payload_encryption_type,
            res.payload == payload,
    {
        Message { id, ref_id, connection_id, user_token, payload_encryption_type, payload }
    }

    /// A message from its parts, with a fresh random id.
    pub fn new_random_id(
        ref_id: Option<String>,
        connection_id: Option<String>,
        user_token: String,
        payload_encryption_type: PayloadEncryptionType,
        payload: Option<Vec<u8>>,
    ) -> (res: Self)
        ensures
            is_generated_id(res.id@),
            res.ref_id == ref_id,
            res.connection_id == connection_id,
            res.user_token == user_token,
            res.payload_encryption_type == payload_encryption_type,
            res.payload == payload,
    {
        Message { id: generate_uuid(), ref_id, connection_id, user_token, payload_encryption_type, payload }
    }

    /// The wire form.
    pub fn encode(&self) -> (res: Vec<u8>)
        ensures
            res@ == spec_encode_message(self@),
    {
        let mut buf: Vec<u8> = Vec::new();
        put_str32(&mut buf, &self.id);
        put_opt_str32(&mut buf, &self.ref_id);
        put_opt_str32(&mut buf, &self.connection_id);
        let token = string_bytes(&self.user_token);
        put_u64(&mut buf, token.len() as u64);
        put_slice(&mut buf, token);
        self.payload_encryption_type.encode_into(&mut buf);
        match &self.payload {
            None => put_u64(&mut buf, 0),
            Some(p) => {
                put_u64(&mut buf, p.len() as u64);
                put_slice(&mut buf, p.as_slice());
            },
        }
        assert(buf@ =~= spec_encode_message(self@));
        buf
    }

    /// Whether reading `s` as a message would run past its end (see [`spec_message_overruns`]).
    pub fn decode_overruns(s: &[u8]) -> (res: bool)
        ensures
            res == spec_message_overruns(s@),
    {
        proof {
            reveal(spec_message_overruns);
        }
        match read_str32(s, 0) {
            Err(_) => false,
            Ok((_, p1)) => match read_str32(s, p1) {
                Err(_) => false,
                Ok((_, p2)) => s.len() - p2 < 4,
            },
        }
    }

    /// Reads a message from the start of `s`; `CodecError` exactly when `s`
    /// does not begin with one.
    pub fn decode(s: &[u8]) -> (res: Result<Message, PpaassError>)
        requires
            !spec_message_overruns(s@),
        ensures
            match res {
                Ok(m) => spec_decode_message(s@) == Some(m@),
                Err(e) => spec_decode_message(s@) is None && e is CodecError,
            },
    {
        proof {
            reveal(spec_decode_message);
            reveal(spec_message_overruns);
        }
        let len = s.len();
        let (id, p1) = match read_str32(s, 0) {
            Ok(v) => v,
            Err(e) => return Err(e),
        };
        let (ref_id, p2) = match read_str32(s, p1) {
            Ok(v) => v,
            Err(e) => return Err(e),
        };
        let (connection_id, p3) = match read_str32(s, p2) {
            Ok(v) => v,
            Err(e) => return Err(e),
        };
        let (user_token, p4) = match read_str64(s, p3) {
            Ok(v) => v,
            Err(e) => return Err(e),
        };
        let (payload_encryption_type, p5) = match PayloadEncryptionType::decode_at(s, p4) {
            Ok(v) => v,
            Err(_) => return Err(PpaassError::CodecError),
        };
        if len - p5 < 8 {
            return Err(PpaassError::CodecError);
        }
        let n = get_u64(s, p5) as usize;
        let payload = if n == 0 {
            None
        } else if len - p5 - 8 >= n {
            Some(copy_range(s, p5 + 8, p5 + 8 + n))
        } else {
            return Err(PpaassError::CodecError);
        };
        let res = Message {
            id,
            ref_id: Some(ref_id),
            connection_id: Some(connection_id),
            user_token,
            payload_encryption_type,
            payload,
        };
        Ok(res)
    }
}

} // verus!
