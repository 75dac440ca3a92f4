//! Payload encryption types, payload kinds and the message payload, with their wire forms.
use vstd::prelude::*;

use crate::address::{
    lemma_net_address_roundtrip, net_address_wf, spec_decode_net_address, spec_encode_net_address, NetAddress,
    SpecNetAddress,
};
use crate::error::PpaassError;
use crate::wire::{
    be_u32, be_u32_at, be_u64, be_u64_at, copy_range, get_u32, get_u64, lemma_read_u32, lemma_read_u64, put_slice,
    put_u32, put_u64,
};

verus! {

/// Wire tag of an unencrypted payload.
pub const ENCRYPTION_TYPE_PLAIN: u8 = 0;
/// Wire tag of a Blowfish-encrypted payload.
pub const ENCRYPTION_TYPE_BLOWFISH: u8 = 1;
/// Wire tag of an AES-encrypted payload.
pub const ENCRYPTION_TYPE_AES: u8 = 2;

/// How a message payload is encrypted, with the encryption token where there is one.
#[derive(Debug, Clone)]
pub enum PayloadEncryptionType {
    Plain,
    Blowfish(Vec<u8>),
    Aes(Vec<u8>),
}

/// The mathematical model of a [`PayloadEncryptionType`].
pub enum SpecEncryptionType {
    Plain,
    Blowfish(Seq<u8>),
    Aes(Seq<u8>),
}

impl View for PayloadEncryptionType {
    type V = SpecEncryptionType;

    open spec fn view(&self) -> SpecEncryptionType {
        match self {
            PayloadEncryptionType::Plain => SpecEncryptionType::Plain,
            PayloadEncryptionType::Blowfish(t) => SpecEncryptionType::Blowfish(t@),
            PayloadEncryptionType::Aes(t) => SpecEncryptionType::Aes(t@),
        }
    }
}

/// An encryption type whose token length fits the 32-bit length field.
pub open spec fn encryption_type_wf(e: SpecEncryptionType) -> bool {
    match e {
        SpecEncryptionType::Plain => true,
        SpecEncryptionType::Blowfish(t) => t.len() <= u32::MAX,
        SpecEncryptionType::Aes(t) => t.len() <= u32::MAX,
    }
}

/// Wire form: a tag byte, the 32-bit big-endian token length, the token bytes
/// (an empty token for a plain payload).
pub open spec fn spec_encode_encryption_type(e: SpecEncryptionType) -> Seq<u8> {
    match e {
        SpecEncryptionType::Plain => seq![ENCRYPTION_TYPE_PLAIN] + be_u32(0),
        SpecEncryptionType::Blowfish(t) => seq![ENCRYPTION_TYPE_BLOWFISH] + be_u32(t.len() as u32) + t,
        SpecEncryptionType::Aes(t) => seq![ENCRYPTION_TYPE_AES] + be_u32(t.len() as u32) + t,
    }
}

/// Reads an encryption type at `pos`: the type and the position after it. The
/// token bytes are read for every tag, and dropped for a plain payload.
pub open spec fn spec_decode_encryption_type(s: Seq<u8>, pos: int) -> Option<(SpecEncryptionType, int)> {
    if pos < 0 || s.len() - pos < 5 {
        None
    } else {
        let n = be_u32_at(s, pos + 1) as usize as int;
        if s.len() - pos - 5 < n {
            None
        } else {
            let token = s.subrange(pos + 5, pos + 5 + n);
            if s[pos] == ENCRYPTION_TYPE_PLAIN {
                Some((SpecEncryptionType::Plain, pos + 5 + n))
            } else if s[pos] == ENCRYPTION_TYPE_BLOWFISH {
                Some((SpecEncryptionType::Blowfish(token), pos + 5 + n))
            } else if s[pos] == ENCRYPTION_TYPE_AES {
                Some((SpecEncryptionType::Aes(token), pos + 5 + n))
            } else {
                None
            }
        }
    }
}

/// Reading an encryption type back from its wire form gives it back.
pub proof fn lemma_encryption_type_roundtrip(e: SpecEncryptionType, pre: Seq<u8>, rest: Seq<u8>)
    requires
        encryption_type_wf(e),
    ensures
        spec_decode_encryption_type(pre + spec_encode_encryption_type(e) + rest, pre.len() as int)
            == Some((e, pre.len() + spec_encode_encryption_type(e).len() as int)),
{
    let enc = spec_encode_encryption_type(e);
    let s = pre + enc + rest;
    let p = pre.len() as int;
    assert(s.subrange(p, p + enc.len()) =~= enc);
    assert(s[p] == enc[0]);
    match e {
        SpecEncryptionType::Plain => {
            assert(s.subrange(p + 1, p + 5) =~= be_u32(0));
            lemma_read_u32(s, p + 1, 0);
        },
        SpecEncryptionType::Blowfish(t) => {
            assert(s.subrange(p + 1, p + 5) =~= be_u32(t.len() as u32));
            lemma_read_u32(s, p + 1, t.len() as u32);
            assert(s.subrange(p + 5, p + 5 + t.len()) =~= t);
        },
        SpecEncryptionType::Aes(t) => {
            assert(s.subrange(p + 1, p + 5) =~= be_u32(t.len() as u32));
            lemma_read_u32(s, p + 1, t.len() as u32);
            assert(s.subrange(p + 5, p + 5 + t.len()) =~= t);
        },
    }
}

impl PayloadEncryptionType {
    /// A copy of this encryption type.
    pub fn duplicate(&self) -> (res: PayloadEncryptionType)
        ensures
            res@ == self@,
    {
        match self {
            PayloadEncryptionType::Plain => PayloadEncryptionType::Plain,
            PayloadEncryptionType::Blowfish(t) => PayloadEncryptionType::Blowfish(t.clone()),
            PayloadEncryptionType::Aes(t) => PayloadEncryptionType::Aes(t.clone()),
        }
    }

    /// Appends the wire form to `buf`.
    pub fn encode_into(&self, buf: &mut Vec<u8>)
        ensures
            final(buf)@ == old(buf)@ + spec_encode_encryption_type(self@),
    {
        match self {
            PayloadEncryptionType::Plain => {
                buf.push(ENCRYPTION_TYPE_PLAIN);
                put_u32(buf, 0);
            },
            PayloadEncryptionType::Blowfish(t) => {
                buf.push(ENCRYPTION_TYPE_BLOWFISH);
                put_u32(buf, t.len() as u32);
                put_slice(buf, t.as_slice());
            },
            PayloadEncryptionType::Aes(t) => {
                buf.push(ENCRYPTION_TYPE_AES);
                put_u32(buf, t.len() as u32);
                put_slice(buf, t.as_slice());
            },
        }
        assert(buf@ =~= old(buf)@ + spec_encode_encryption_type(self@));
    }

    /// The wire form.
    pub fn encode(&self) -> (res: Vec<u8>)
        ensures
            res@ == spec_encode_encryption_type(self@),
    {
        let mut buf: Vec<u8> = Vec::new();
        self.encode_into(&mut buf);
        assert(buf@ =~= spec_encode_encryption_type(self@));
        buf
    }

    /// Reads an encryption type at `pos`; `CodecError` exactly when there is none.
    pub fn decode_at(s: &[u8], pos: usize) -> (res: Result<(PayloadEncryptionType, usize), PpaassError>)
        requires
            pos <= s@.len(),
        ensures
            match res {
                Ok((e, p)) => spec_decode_encryption_type(s@, pos as int) == Some((e@, p as int)),
                Err(e) => spec_decode_encryption_type(s@, pos as int) is None && e is CodecError,
            },
    {
        let len = s.len();
        if len - pos < 5 {
            return Err(PpaassError::CodecError);
        }
        let enc_type_value = s[pos];
        let n = get_u32(s, pos + 1) as usize;
        if len - pos - 5 < n {
            return Err(PpaassError::CodecError);
        }
        let token = copy_range(s, pos + 5, pos + 5 + n);
        if enc_type_value == ENCRYPTION_TYPE_PLAIN {
            Ok((PayloadEncryptionType::Plain, pos + 5 + n))
        } else if enc_type_value == ENCRYPTION_TYPE_BLOWFISH {
            Ok((PayloadEncryptionType::Blowfish(token), pos + 5 + n))
        } else if enc_type_value == ENCRYPTION_TYPE_AES {
            Ok((PayloadEncryptionType::Aes(token), pos + 5 + n))
        } else {
            Err(PpaassError::CodecError)
        }
    }

    /// Reads an encryption type from the start of `s`.
    pub fn decode(s: &[u8]) -> (res: Result<PayloadEncryptionType, PpaassError>)
        ensures
            match res {
                Ok(e) => exists|p: int| spec_decode_encryption_type(s@, 0) == Some((e@, p)),
                Err(e) => spec_decode_encryption_type(s@, 0) is None && e is CodecError,
            },
    {
        match PayloadEncryptionType::decode_at(s, 0) {
            Ok((e, _)) => Ok(e),
            Err(e) => Err(e),
        }
    }
}

/// The kinds of payload an agent sends.
#[derive(Debug, Clone, Copy, PartialEq, Eq, Structural)]
pub enum AgentMessagePayloadTypeValue {
    TcpConnect,
    TcpData,
    UdpAssociate,
    UdpData,
}

/// The kinds of payload a proxy sends.
#[derive(Debug, Clone, Copy, PartialEq, Eq, Structural)]
pub enum ProxyMessagePayloadTypeValue {
    TcpConnectSuccess,
    TcpConnectFail,
    TcpData,
    UdpAssociateSuccess,
    UdpAssociateFail,
    UdpData,
    UdpDataRelayFail,
}

/// The kind of a payload, from the agent side or from the proxy side.
#[derive(Debug, Clone, Copy, PartialEq, Eq, Structural)]
pub enum PayloadType {
    AgentPayload(AgentMessagePayloadTypeValue),
    ProxyPayload(ProxyMessagePayloadTypeValue),
}

/// The wire byte of a payload kind.
pub open spec fn spec_payload_type_byte(t: PayloadType) -> u8 {
    match t {
        PayloadType::AgentPayload(v) => match v {
            AgentMessagePayloadTypeValue::TcpConnect => 110,
            AgentMessagePayloadTypeValue::TcpData => 111,
            AgentMessagePayloadTypeValue::UdpAssociate => 120,
            AgentMessagePayloadTypeValue::UdpData => 121,
        },
        PayloadType::ProxyPayload(v) => match v {
            ProxyMessagePayloadTypeValue::TcpConnectSuccess => 210,
            ProxyMessagePayloadTypeValue::TcpConnectFail => 211,
            ProxyMessagePayloadTypeValue::TcpData => 212,
            ProxyMessagePayloadTypeValue::UdpAssociateSuccess => 221,
            ProxyMessagePayloadTypeValue::UdpAssociateFail => 222,
            ProxyMessagePayloadTypeValue::UdpDataRelayFail => 223,
            ProxyMessagePayloadTypeValue::UdpData => 224,
        },
    }
}

/// The payload kind a wire byte stands for, if any.
pub open spec fn spec_payload_type_of(b: u8) -> Option<PayloadType> {
    if b == 210 {
        Some(PayloadType::ProxyPayload(ProxyMessagePayloadTypeValue::TcpConnectSuccess))
    } else if b == 211 {
        Some(PayloadType::ProxyPayload(ProxyMessagePayloadTypeValue::TcpConnectFail))
    } else if b == 212 {
        Some(PayloadType::ProxyPayload(ProxyMessagePayloadTypeValue::TcpData))
    } else if b == 221 {
        Some(PayloadType::ProxyPayload(ProxyMessagePayloadTypeValue::UdpAssociateSuccess))
    } else if b == 222 {
        Some(PayloadType::ProxyPayload(ProxyMessagePayloadTypeValue::UdpAssociateFail))
    } else if b == 223 {
        Some(PayloadType::ProxyPayload(ProxyMessagePayloadTypeValue::UdpDataRelayFail))
    } else if b == 224 {
        Some(PayloadType::ProxyPayload(ProxyMessagePayloadTypeValue::UdpData))
    } else if b == 110 {
        Some(PayloadType::AgentPayload(AgentMessagePayloadTypeValue::TcpConnect))
    } else if b == 111 {
        Some(PayloadType::AgentPayload(AgentMessagePayloadTypeValue::TcpData))
    } else if b == 120 {
        Some(PayloadType::AgentPayload(AgentMessagePayloadTypeValue::UdpAssociate))
    } else if b == 121 {
        Some(PayloadType::AgentPayload(AgentMessagePayloadTypeValue::UdpData))
    } else {
        None
    }
}

/// Every payload kind is read back from its byte, and every byte that stands
/// for a kind is that kind's byte.
pub proof fn lemma_payload_type_byte_bijection(t: PayloadType, b: u8)
    ensures
        spec_payload_type_of(spec_payload_type_byte(t)) == Some(t),
        spec_payload_type_of(b) matches Some(u) ==> spec_payload_type_byte(u) == b,
{
}

impl AgentMessagePayloadTypeValue {
    /// The wire byte of this agent payload kind.
    pub fn to_byte(self) -> (res: u8)
        ensures
            res == spec_payload_type_byte(PayloadType::AgentPayload(self)),
    {
        match self {
            AgentMessagePayloadTypeValue::TcpConnect => 110,
            AgentMessagePayloadTypeValue::TcpData => 111,
            AgentMessagePayloadTypeValue::UdpAssociate => 120,
            AgentMessagePayloadTypeValue::UdpData => 121,
        }
    }
}

impl ProxyMessagePayloadTypeValue {
    /// The wire byte of this proxy payload kind.
    pub fn to_byte(self) -> (res: u8)
        ensures
            res == spec_payload_type_byte(PayloadType::ProxyPayload(self)),
    {
        match self {
            ProxyMessagePayloadTypeValue::TcpConnectSuccess => 210,
            ProxyMessagePayloadTypeValue::TcpConnectFail => 211,
            ProxyMessagePayloadTypeValue::TcpData => 212,
            ProxyMessagePayloadTypeValue::UdpAssociateSuccess => 221,
            ProxyMessagePayloadTypeValue::UdpAssociateFail => 222,
            ProxyMessagePayloadTypeValue::UdpDataRelayFail => 223,
            ProxyMessagePayloadTypeValue::UdpData => 224,
        }
    }
}

impl PayloadType {
    /// The wire byte of this payload kind.
    pub fn to_byte(self) -> (res: u8)
        ensures
            res == spec_payload_type_byte(self),
    {
        match self {
            PayloadType::AgentPayload(v) => v.to_byte(),
            PayloadType::ProxyPayload(v) => v.to_byte(),
        }
    }

    /// The payload kind of a wire byte; `CodecError` for a byte that stands for none.
    pub fn from_byte(value: u8) -> (res: Result<PayloadType, PpaassError>)
        ensures
            match res {
                Ok(t) => spec_payload_type_of(value) == Some(t),
                Err(e) => spec_payload_type_of(value) is None && e is CodecError,
            },
    {
        if value == 210 {
            Ok(PayloadType::ProxyPayload(ProxyMessagePayloadTypeValue::TcpConnectSuccess))
        } else if value == 211 {
            Ok(PayloadType::ProxyPayload(ProxyMessagePayloadTypeValue::TcpConnectFail))
        } else if value == 212 {
            Ok(PayloadType::ProxyPayload(ProxyMessagePayloadTypeValue::TcpData))
        } else if value == 221 {
            Ok(PayloadType::ProxyPayload(ProxyMessagePayloadTypeValue::UdpAssociateSuccess))
        } else if value == 222 {
            Ok(PayloadType::ProxyPayload(ProxyMessagePayloadTypeValue::UdpAssociateFail))
        } else if value == 223 {
            Ok(PayloadType::ProxyPayload(ProxyMessagePayloadTypeValue::UdpDataRelayFail))
        } else if value == 224 {
            Ok(PayloadType::ProxyPayload(ProxyMessagePayloadTypeValue::UdpData))
        } else if value == 110 {
            Ok(PayloadType::AgentPayload(AgentMessagePayloadTypeValue::TcpConnect))
        } else if value == 111 {
            Ok(PayloadType::AgentPayload(AgentMessagePayloadTypeValue::TcpData))
        } else if value == 120 {
            Ok(PayloadType::AgentPayload(AgentMessagePayloadTypeValue::UdpAssociate))
        } else if value == 121 {
            Ok(PayloadType::AgentPayload(AgentMessagePayloadTypeValue::UdpData))
        } else {
            Err(PpaassError::CodecError)
        }
    }
}

/// The payload of a message: where the data comes from and goes to, its kind, and the data.
#[derive(Debug)]
pub struct MessagePayload {
    /// The source address.
    pub source_address: NetAddress,
    /// The target address.
    pub target_address: NetAddress,
    /// The payload kind.
    pub payload_type: PayloadType,
    /// The data.
    pub data: Vec<u8>,
}

/// The mathematical model of a [`MessagePayload`].
pub struct SpecMessagePayload {
    pub source_address: SpecNetAddress,
    pub target_address: SpecNetAddress,
    pub payload_type: PayloadType,
    pub data: Seq<u8>,
}

impl View for MessagePayload {
    type V = SpecMessagePayload;

    open spec fn view(&self) -> SpecMessagePayload {
        SpecMessagePayload {
            source_address: self.source_address@,
            target_address: self.target_address@,
            payload_type: self.payload_type,
            data: self.data@,
        }
    }
}

/// A payload whose addresses can be written and read back.
pub open spec fn message_payload_wf(p: SpecMessagePayload) -> bool {
    net_address_wf(p.source_address) && net_address_wf(p.target_address) && p.data.len() <= usize::MAX
}

/// Wire form: the kind byte, the source and target addresses, the 64-bit
/// big-endian data length, the data.
pub open spec fn spec_encode_message_payload(p: SpecMessagePayload) -> Seq<u8> {
    seq![spec_payload_type_byte(p.payload_type)] + spec_encode_net_address(p.source_address)
        + spec_encode_net_address(p.target_address) + be_u64(p.data.len() as u64) + p.data
}

/// Reads a payload from the start of `s`; bytes after the data are ignored.
pub open spec fn spec_decode_message_payload(s: Seq<u8>) -> Option<SpecMessagePayload> {
    if s.len() < 1 {
        None
    } else {
        match spec_payload_type_of(s[0]) {
            None => None,
            Some(payload_type) => match spec_decode_net_address(s, 1) {
                None => None,
                Some((source_address, p1)) => match spec_decode_net_address(s, p1) {
                    None => None,
                    Some((target_address, p2)) => if s.len() - p2 < 8 {
                        None
                    } else {
                        let n = be_u64_at(s, p2) as usize as int;
                        if s.len() - p2 - 8 < n {
                            None
                        } else {
                            Some(SpecMessagePayload {
                                source_address,
                                target_address,
                                payload_type,
                                data: s.subrange(p2 + 8, p2 + 8 + n),
                            })
                        }
                    },
                },
            },
        }
    }
}

/// Reading a payload back from its wire form gives it back, whatever follows.
#[verifier::spinoff_prover]
#[verifier::rlimit(40)]
pub proof fn lemma_message_payload_roundtrip(p: SpecMessagePayload, rest: Seq<u8>)
    requires
        message_payload_wf(p),
    ensures
        spec_decode_message_payload(spec_encode_message_payload(p) + rest) == Some(p),
{
    let b = seq![spec_payload_type_byte(p.payload_type)];
    let es = spec_encode_net_address(p.source_address);
    let et = spec_encode_net_address(p.target_address);
    let el = be_u64(p.data.len() as u64);
    let s = spec_encode_message_payload(p) + rest;
    lemma_payload_type_byte_bijection(p.payload_type, 0);
    assert(s =~= b + es + (et + el + p.data + rest));
    lemma_net_address_roundtrip(p.source_address, b, et + el + p.data + rest);
    assert(s =~= (b + es) + et + (el + p.data + rest));
    lemma_net_address_roundtrip(p.target_address, b + es, el + p.data + rest);
    let p2 = 1 + es.len() as int + et.len() as int;
    assert(s.subrange(p2, p2 + 8) =~= el);
    lemma_read_u64(s, p2, p.data.len() as u64);
    assert((p.data.len() as u64) as usize as int == p.data.len());
    assert(s.subrange(p2 + 8, p2 + 8 + p.data.len() as int) =~= p.data);
}

impl MessagePayload {
    /// A payload from its parts.
    pub fn new(source_address: NetAddress, target_address: NetAddress, payload_type: PayloadType, data: Vec<u8>) -> (res: Self)
        ensures
            res@ == (SpecMessagePayload { source_address: source_address@, target_address: target_address@, payload_type, data: data@ }),
    {
        MessagePayload { source_address, target_address, payload_type, data }
    }

    /// The wire form.
    pub fn encode(&self) -> (res: Vec<u8>)
        ensures
            res@ == spec_encode_message_payload(self@),
    {
        let mut buf: Vec<u8> = Vec::new();
        buf.push(self.payload_type.to_byte());
        self.source_address.encode_into(&mut buf);
        self.target_address.encode_into(&mut buf);
        put_u64(&mut buf, self.data.len() as u64);
        put_slice(&mut buf, self.data.as_slice());
        assert(buf@ =~= spec_encode_message_payload(self@));
        buf
    }

    /// Reads a payload from the start of `s`; `CodecError` exactly when `s`
    /// does not begin with one.
    pub fn decode(s: &[u8]) -> (res: Result<MessagePayload, PpaassError>)
        ensures
            match res {
                Ok(p) => spec_decode_message_payload(s@) == Some(p@),
                Err(e) => spec_decode_message_payload(s@) is None && e is CodecError,
            },
    {
        let len = s.len();
        if len < 1 {
            return Err(PpaassError::CodecError);
        }
        let payload_type = match PayloadType::from_byte(s[0]) {
            Ok(v) => v,
            Err(_) => return Err(PpaassError::CodecError),
        };
        let (source_address, p1) = match NetAddress::decode_at(s, 1) {
            Ok(v) => v,
            Err(_) => return Err(PpaassError::CodecError),
        };
        let (target_address, p2) = match NetAddress::decode_at(s, p1) {
            Ok(v) => v,
            Err(_) => return Err(PpaassError::CodecError),
        };
        if len - p2 < 8 {
            return Err(PpaassError::CodecError);
        }
        let n = get_u64(s, p2) as usize;
        if len - p2 - 8 < n {
            return Err(PpaassError::CodecError);
        }
        let data = copy_range(s, p2 + 8, p2 + 8 + n);
        Ok(MessagePayload { source_address, target_address, payload_type, data })
    }
}

} // verus!
