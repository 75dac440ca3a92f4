//! The SOCKS 5 messages the agent exchanges with its clients: authentication
//! methods, commands and their replies, addresses, UDP datagrams, and the
//! codecs that read and write them on the client stream.
use vstd::prelude::*;
use vstd::utf8::{decode_utf8, encode_utf8, encode_utf8_decode_utf8, encode_utf8_valid_utf8, valid_utf8};

use crate::address::{address_text, spec_address_text, NetAddress, SpecNetAddress};
use crate::error::PpaassError;
use crate::text::{string_bytes, string_from_utf8};
use crate::wire::{be_u16, be_u16_at, copy_range, drop_front, get_u16, lemma_read_u16, put_slice, put_u16};

verus! {

/// The first byte of every SOCKS 5 request.
pub const SOCKS5_FLAG: u8 = 5;
/// The first byte of a SOCKS 4 request.
pub const SOCKS4_FLAG: u8 = 4;

/// A SOCKS 5 authentication method.
#[derive(Debug, Clone, Copy, PartialEq, Eq, Structural)]
pub enum Socks5AuthMethod {
    NoAuthenticationRequired,
    GssApi,
    UsernameAndPassword,
    IanaAssigned,
    ReservedForPrivateMethods,
    NoAcceptableMethods,
}

/// The method a byte names; an unknown byte names "no authentication required".
pub open spec fn spec_auth_method_of(v: u8) -> Socks5AuthMethod {
    if v == 0 {
        Socks5AuthMethod::NoAuthenticationRequired
    } else if v == 1 {
        Socks5AuthMethod::GssApi
    } else if v == 2 {
        Socks5AuthMethod::UsernameAndPassword
    } else if v == 3 {
        Socks5AuthMethod::IanaAssigned
    } else if v == 8 {
        Socks5AuthMethod::ReservedForPrivateMethods
    } else if v == 16 {
        Socks5AuthMethod::NoAcceptableMethods
    } else {
        Socks5AuthMethod::NoAuthenticationRequired
    }
}

/// The byte of a method.
pub open spec fn spec_auth_method_byte(m: Socks5AuthMethod) -> u8 {
    match m {
        Socks5AuthMethod::NoAuthenticationRequired => 0,
        Socks5AuthMethod::GssApi => 1,
        Socks5AuthMethod::UsernameAndPassword => 2,
        Socks5AuthMethod::IanaAssigned => 3,
        Socks5AuthMethod::ReservedForPrivateMethods => 8,
        Socks5AuthMethod::NoAcceptableMethods => 16,
    }
}

/// A method's byte names the method again, and a known byte is the byte of
/// the method it names.
pub proof fn lemma_auth_method_byte_roundtrip(m: Socks5AuthMethod, v: u8)
    ensures
        spec_auth_method_of(spec_auth_method_byte(m)) == m,
        (v == 0 || v == 1 || v == 2 || v == 3 || v == 8 || v == 16) ==> spec_auth_method_byte(
            spec_auth_method_of(v),
        ) == v,
{
}

impl Socks5AuthMethod {
    /// The method a byte names; an unknown byte names "no authentication required".
    pub fn from_byte(v: u8) -> (res: Socks5AuthMethod)
        ensures
            res == spec_auth_method_of(v),
    {
        if v == 0 {
            Socks5AuthMethod::NoAuthenticationRequired
        } else if v == 1 {
            Socks5AuthMethod::GssApi
        } else if v == 2 {
            Socks5AuthMethod::UsernameAndPassword
        } else if v == 3 {
            Socks5AuthMethod::IanaAssigned
        } else if v == 8 {
            Socks5AuthMethod::ReservedForPrivateMethods
        } else if v == 16 {
            Socks5AuthMethod::NoAcceptableMethods
        } else {
            Socks5AuthMethod::NoAuthenticationRequired
        }
    }

    /// The byte of this method.
    pub fn to_byte(self) -> (res: u8)
        ensures
            res == spec_auth_method_byte(self),
    {
        match self {
            Socks5AuthMethod::NoAuthenticationRequired => 0,
            Socks5AuthMethod::GssApi => 1,
            Socks5AuthMethod::UsernameAndPassword => 2,
            Socks5AuthMethod::IanaAssigned => 3,
            Socks5AuthMethod::ReservedForPrivateMethods => 8,
            Socks5AuthMethod::NoAcceptableMethods => 16,
        }
    }
}

/// The command of a SOCKS 5 request.
#[derive(Debug, Clone, Copy, PartialEq, Eq, Structural)]
pub enum Socks5InitCommandType {
    Connect,
    Bind,
    UdpAssociate,
}

/// The command a byte names, if any.
pub open spec fn spec_init_command_type_of(v: u8) -> Option<Socks5InitCommandType> {
    if v == 1 {
        Some(Socks5InitCommandType::Connect)
    } else if v == 2 {
        Some(Socks5InitCommandType::Bind)
    } else if v == 3 {
        Some(Socks5InitCommandType::UdpAssociate)
    } else {
        None
    }
}

impl Socks5InitCommandType {
    /// The command a byte names; `CodecError` for any byte but 1, 2 and 3.
    pub fn try_from_byte(v: u8) -> (res: Result<Socks5InitCommandType, PpaassError>)
        ensures
            match res {
                Ok(t) => spec_init_command_type_of(v) == Some(t),
                Err(e) => spec_init_command_type_of(v) is None && e is CodecError,
            },
    {
        if v == 1 {
            Ok(Socks5InitCommandType::Connect)
        } else if v == 2 {
            Ok(Socks5InitCommandType::Bind)
        } else if v == 3 {
            Ok(Socks5InitCommandType::UdpAssociate)
        } else {
            Err(PpaassError::CodecError)
        }
    }
}

/// The status of a SOCKS 5 reply.
#[derive(Debug, Clone, Copy, PartialEq, Eq, Structural)]
pub enum Socks5InitCommandResultStatus {
    Succeeded,
    Failure,
    ConnectionNotAllowedByRuleSet,
    NetworkUnReachable,
    HostUnReachable,
    ConnectionRefused,
    TtlExpired,
    CommandNotSupported,
    AddressTypeNotSupported,
    Unassigned,
}

/// The status a byte names; an unknown byte names a general failure.
pub open spec fn spec_result_status_of(v: u8) -> Socks5InitCommandResultStatus {
    if v == 0 {
        Socks5InitCommandResultStatus::Succeeded
    } else if v == 1 {
        Socks5InitCommandResultStatus::Failure
    } else if v == 2 {
        Socks5InitCommandResultStatus::ConnectionNotAllowedByRuleSet
    } else if v == 3 {
        Socks5InitCommandResultStatus::NetworkUnReachable
    } else if v == 4 {
        Socks5InitCommandResultStatus::HostUnReachable
    } else if v == 5 {
        Socks5InitCommandResultStatus::ConnectionRefused
    } else if v == 6 {
        Socks5InitCommandResultStatus::TtlExpired
    } else if v == 7 {
        Socks5InitCommandResultStatus::CommandNotSupported
    } else if v == 8 {
        Socks5InitCommandResultStatus::AddressTypeNotSupported
    } else if v == 9 {
        Socks5InitCommandResultStatus::Unassigned
    } else {
        Socks5InitCommandResultStatus::Failure
    }
}

/// The byte of a status.
pub open spec fn spec_result_status_byte(s: Socks5InitCommandResultStatus) -> u8 {
    match s {
        Socks5InitCommandResultStatus::Succeeded => 0,
        Socks5InitCommandResultStatus::Failure => 1,
        Socks5InitCommandResultStatus::ConnectionNotAllowedByRuleSet => 2,
        Socks5InitCommandResultStatus::NetworkUnReachable => 3,
        Socks5InitCommandResultStatus::HostUnReachable => 4,
        Socks5InitCommandResultStatus::ConnectionRefused => 5,
        Socks5InitCommandResultStatus::TtlExpired => 6,
        Socks5InitCommandResultStatus::CommandNotSupported => 7,
        Socks5InitCommandResultStatus::AddressTypeNotSupported => 8,
        Socks5InitCommandResultStatus::Unassigned => 9,
    }
}

/// A status's byte names the status again, and a byte up to 9 is the byte of
/// the status it names.
pub proof fn lemma_result_status_byte_roundtrip(s: Socks5InitCommandResultStatus, v: u8)
    ensures
        spec_result_status_of(spec_result_status_byte(s)) == s,
        v <= 9 ==> spec_result_status_byte(spec_result_status_of(v)) == v,
{
}

/// The reply statuses of RFC 1928 and their bytes: succeeded 0, general
/// failure 1, not allowed by the rule set 2, network unreachable 3, host
/// unreachable 4, connection refused 5, TTL expired 6, command not supported
/// 7, address type not supported 8, unassigned 9; any other byte is read as a
/// general failure.
pub proof fn lemma_result_status_table(v: u8)
    ensures
        spec_result_status_byte(Socks5InitCommandResultStatus::Succeeded) == 0,
        spec_result_status_byte(Socks5InitCommandResultStatus::Failure) == 1,
        spec_result_status_byte(Socks5InitCommandResultStatus::ConnectionNotAllowedByRuleSet) == 2,
        spec_result_status_byte(Socks5InitCommandResultStatus::NetworkUnReachable) == 3,
        spec_result_status_byte(Socks5InitCommandResultStatus::HostUnReachable) == 4,
        spec_result_status_byte(Socks5InitCommandResultStatus::ConnectionRefused) == 5,
        spec_result_status_byte(Socks5InitCommandResultStatus::TtlExpired) == 6,
        spec_result_status_byte(Socks5InitCommandResultStatus::CommandNotSupported) == 7,
        spec_result_status_byte(Socks5InitCommandResultStatus::AddressTypeNotSupported) == 8,
        spec_result_status_byte(Socks5InitCommandResultStatus::Unassigned) == 9,
        spec_result_status_of(0) == Socks5InitCommandResultStatus::Succeeded,
        spec_result_status_of(1) == Socks5InitCommandResultStatus::Failure,
        spec_result_status_of(2) == Socks5InitCommandResultStatus::ConnectionNotAllowedByRuleSet,
        spec_result_status_of(3) == Socks5InitCommandResultStatus::NetworkUnReachable,
        spec_result_status_of(4) == Socks5InitCommandResultStatus::HostUnReachable,
        spec_result_status_of(5) == Socks5InitCommandResultStatus::ConnectionRefused,
        spec_result_status_of(6) == Socks5InitCommandResultStatus::TtlExpired,
        spec_result_status_of(7) == Socks5InitCommandResultStatus::CommandNotSupported,
        spec_result_status_of(8) == Socks5InitCommandResultStatus::AddressTypeNotSupported,
        spec_result_status_of(9) == Socks5InitCommandResultStatus::Unassigned,
        v > 9 ==> spec_result_status_of(v) == Socks5InitCommandResultStatus::Failure,
{
}

impl Socks5InitCommandResultStatus {
    /// The status a byte names; an unknown byte names a general failure.
    pub fn from_byte(v: u8) -> (res: Socks5InitCommandResultStatus)
        ensures
            res == spec_result_status_of(v),
    {
        if v == 0 {
            Socks5InitCommandResultStatus::Succeeded
        } else if v == 1 {
            Socks5InitCommandResultStatus::Failure
        } else if v == 2 {
            Socks5InitCommandResultStatus::ConnectionNotAllowedByRuleSet
        } else if v == 3 {
            Socks5InitCommandResultStatus::NetworkUnReachable
        } else if v == 4 {
            Socks5InitCommandResultStatus::HostUnReachable
        } else if v == 5 {
            Socks5InitCommandResultStatus::ConnectionRefused
        } else if v == 6 {
            Socks5InitCommandResultStatus::TtlExpired
        } else if v == 7 {
            Socks5InitCommandResultStatus::CommandNotSupported
        } else if v == 8 {
            Socks5InitCommandResultStatus::AddressTypeNotSupported
        } else if v == 9 {
            Socks5InitCommandResultStatus::Unassigned
        } else {
            Socks5InitCommandResultStatus::Failure
        }
    }

    /// The byte of this status.
    pub fn to_byte(self) -> (res: u8)
        ensures
            res == spec_result_status_byte(self),
    {
        match self {
            Socks5InitCommandResultStatus::Succeeded => 0,
            Socks5InitCommandResultStatus::Failure => 1,
            Socks5InitCommandResultStatus::ConnectionNotAllowedByRuleSet => 2,
            Socks5InitCommandResultStatus::NetworkUnReachable => 3,
            Socks5InitCommandResultStatus::HostUnReachable => 4,
            Socks5InitCommandResultStatus::ConnectionRefused => 5,
            Socks5InitCommandResultStatus::TtlExpired => 6,
            Socks5InitCommandResultStatus::CommandNotSupported => 7,
            Socks5InitCommandResultStatus::AddressTypeNotSupported => 8,
            Socks5InitCommandResultStatus::Unassigned => 9,
        }
    }
}

/// A SOCKS 5 address: an IPv4 or IPv6 host with a port, or a domain name with a port.
#[derive(Debug)]
pub enum Socks5Addr {
    IpV4([u8; 4], u16),
    IpV6([u8; 16], u16),
    Domain(String, u16),
}

impl View for Socks5Addr {
    type V = SpecNetAddress;

    open spec fn view(&self) -> SpecNetAddress {
        match self {
            Socks5Addr::IpV4(ip, port) => SpecNetAddress::IpV4(ip@, *port),
            Socks5Addr::IpV6(ip, port) => SpecNetAddress::IpV6(ip@, *port),
            Socks5Addr::Domain(host, port) => SpecNetAddress::Domain(host@, *port),
        }
    }
}

/// An address that reads back as written: host bytes of the right length, and
/// a domain whose UTF-8 length fits the one-byte length field.
pub open spec fn socks5_addr_wf(a: SpecNetAddress) -> bool {
    match a {
        SpecNetAddress::IpV4(ip, _) => ip.len() == 4,
        SpecNetAddress::IpV6(ip, _) => ip.len() == 16,
        SpecNetAddress::Domain(host, _) => encode_utf8(host).len() <= 255,
    }
}

/// The SOCKS 5 wire form of an address: the type byte (1 for IPv4, 4 for
/// IPv6, 3 for a domain), the host (a domain as its byte length, cut to one
/// byte, and its UTF-8 bytes), and the big-endian port.
pub open spec fn spec_encode_socks5_addr(a: SpecNetAddress) -> Seq<u8> {
    match a {
        SpecNetAddress::IpV4(ip, port) => seq![1u8] + ip + be_u16(port),
        SpecNetAddress::IpV6(ip, port) => seq![4u8] + ip + be_u16(port),
        SpecNetAddress::Domain(host, port) => seq![3u8] + seq![(encode_utf8(host).len() % 256) as u8] + encode_utf8(
            host,
        ) + be_u16(port),
    }
}

/// Reads a SOCKS 5 address starting at `pos` of `s`: the address and the
/// position just after it, or `None` when the bytes there do not hold one.
pub open spec fn spec_decode_socks5_addr(s: Seq<u8>, pos: int) -> Option<(SpecNetAddress, int)> {
    if pos < 0 || pos >= s.len() {
        None
    } else {
        let rem = s.len() - (pos + 1);
        if s[pos] == 1 {
            if rem < 6 {
                None
            } else {
                Some((SpecNetAddress::IpV4(s.subrange(pos + 1, pos + 5), be_u16_at(s, pos + 5)), pos + 7))
            }
        } else if s[pos] == 4 {
            if rem < 18 {
                None
            } else {
                Some((SpecNetAddress::IpV6(s.subrange(pos + 1, pos + 17), be_u16_at(s, pos + 17)), pos + 19))
            }
        } else if s[pos] == 3 {
            if rem < 1 {
                None
            } else {
                let n = s[pos + 1] as int;
                if rem - 1 < n + 2 {
                    None
                } else if !valid_utf8(s.subrange(pos + 2, pos + 2 + n)) {
                    None
                } else {
                    Some((
                        SpecNetAddress::Domain(decode_utf8(s.subrange(pos + 2, pos + 2 + n)), be_u16_at(s, pos + 2 + n)),
                        pos + 4 + n,
                    ))
                }
            }
        } else {
            None
        }
    }
}

/// Reading a SOCKS 5 address back from its wire form, whatever bytes stand
/// before and after it, gives the address and the position just after it.
pub proof fn lemma_socks5_addr_roundtrip(a: SpecNetAddress, pre: Seq<u8>, rest: Seq<u8>)
    requires
        socks5_addr_wf(a),
    ensures
        spec_decode_socks5_addr(pre + spec_encode_socks5_addr(a) + rest, pre.len() as int) == Some(
            (a, pre.len() + spec_encode_socks5_addr(a).len() as int),
        ),
{
    let e = spec_encode_socks5_addr(a);
    let s = pre + e + rest;
    let p = pre.len() as int;
    assert(s.subrange(p, p + e.len()) =~= e);
    assert(s[p] == e[0]);
    match a {
        SpecNetAddress::IpV4(ip, port) => {
            assert(s.subrange(p + 1, p + 5) =~= ip);
            assert(s.subrange(p + 5, p + 7) =~= be_u16(port));
            lemma_read_u16(s, p + 5, port);
        },
        SpecNetAddress::IpV6(ip, port) => {
            assert(s.subrange(p + 1, p + 17) =~= ip);
            assert(s.subrange(p + 17, p + 19) =~= be_u16(port));
            lemma_read_u16(s, p + 17, port);
        },
        SpecNetAddress::Domain(host, port) => {
            let hb = encode_utf8(host);
            let n = hb.len() as int;
            assert(s[p + 1] == e[1]);
            assert(s.subrange(p + 2, p + 2 + n) =~= hb);
            assert(s.subrange(p + 2 + n, p + 4 + n) =~= be_u16(port));
            lemma_read_u16(s, p + 2 + n, port);
            encode_utf8_valid_utf8(host);
            encode_utf8_decode_utf8(host);
        },
    }
}

impl Socks5Addr {
    /// Appends the SOCKS 5 wire form of this address to `buf`.
    pub fn encode_into(&self, buf: &mut Vec<u8>)
        ensures
            final(buf)@ == old(buf)@ + spec_encode_socks5_addr(self@),
    {
        match self {
            Socks5Addr::IpV4(ip, port) => {
                buf.push(1u8);
                put_slice(buf, ip.as_slice());
                put_u16(buf, *port);
            },
            Socks5Addr::IpV6(ip, port) => {
                buf.push(4u8);
                put_slice(buf, ip.as_slice());
                put_u16(buf, *port);
            },
            Socks5Addr::Domain(host, port) => {
                let bytes = string_bytes(host);
                buf.push(3u8);
                let n = bytes.len();
                assert((n % 256) as u8 == n as u8) by (bit_vector);
                buf.push(n as u8);
                put_slice(buf, bytes);
                put_u16(buf, *port);
            },
        }
        assert(buf@ =~= old(buf)@ + spec_encode_socks5_addr(self@));
    }

    /// The SOCKS 5 wire form of this address.
    pub fn encode(&self) -> (res: Vec<u8>)
        ensures
            res@ == spec_encode_socks5_addr(self@),
    {
        let mut buf: Vec<u8> = Vec::new();
        self.encode_into(&mut buf);
        assert(buf@ =~= spec_encode_socks5_addr(self@));
        buf
    }

    /// Reads a SOCKS 5 address starting at `pos` of `s`, giving the address
    /// and the position just after it; `CodecError` exactly when the bytes
    /// there do not hold one.
    pub fn decode_at(s: &[u8], pos: usize) -> (res: Result<(Socks5Addr, usize), PpaassError>)
        ensures
            match res {
                Ok((a, p)) => spec_decode_socks5_addr(s@, pos as int) == Some((a@, p as int)),
                Err(e) => spec_decode_socks5_addr(s@, pos as int) is None && e is CodecError,
            },
    {
        let len = s.len();
        if pos >= len {
            return Err(PpaassError::CodecError);
        }
        let address_type = s[pos];
        let rem = len - (pos + 1);
        if address_type == 1 {
            if rem < 6 {
                return Err(PpaassError::CodecError);
            }
            let ip = [s[pos + 1], s[pos + 2], s[pos + 3], s[pos + 4]];
            let port = get_u16(s, pos + 5);
            let res = Socks5Addr::IpV4(ip, port);
            assert(res@ == SpecNetAddress::IpV4(s@.subrange(pos + 1, pos + 5), port)) by {
                assert(ip@ =~= s@.subrange(pos + 1, pos + 5));
            }
            Ok((res, pos + 7))
        } else if address_type == 4 {
            if rem < 18 {
                return Err(PpaassError::CodecError);
            }
            let ip = [
                s[pos + 1], s[pos + 2], s[pos + 3], s[pos + 4], s[pos + 5], s[pos + 6], s[pos + 7], s[pos + 8],
                s[pos + 9], s[pos + 10], s[pos + 11], s[pos + 12], s[pos + 13], s[pos + 14], s[pos + 15], s[pos + 16],
            ];
            let port = get_u16(s, pos + 17);
            let res = Socks5Addr::IpV6(ip, port);
            assert(res@ == SpecNetAddress::IpV6(s@.subrange(pos + 1, pos + 17), port)) by {
                assert(ip@ =~= s@.subrange(pos + 1, pos + 17));
            }
            Ok((res, pos + 19))
        } else if address_type == 3 {
            if rem < 1 {
                return Err(PpaassError::CodecError);
            }
            let n = s[pos + 1] as usize;
            if rem - 1 < n + 2 {
                return Err(PpaassError::CodecError);
            }
            let host_bytes = copy_range(s, pos + 2, pos + 2 + n);
            match string_from_utf8(host_bytes) {
                None => Err(PpaassError::CodecError),
                Some(host) => {
                    let port = get_u16(s, pos + 2 + n);
                    Ok((Socks5Addr::Domain(host, port), pos + 4 + n))
                },
            }
        } else {
            Err(PpaassError::CodecError)
        }
    }

    /// The text form; see [`spec_address_text`].
    pub fn to_string(&self) -> (res: String)
        ensures
            res@ == spec_address_text(self@),
    {
        address_text(&self.duplicate().to_net_address())
    }

    /// The same address as a [`NetAddress`].
    pub fn to_net_address(self) -> (res: NetAddress)
        ensures
            res@ == self@,
    {
        match self {
            Socks5Addr::IpV4(ip, port) => NetAddress::IpV4(ip, port),
            Socks5Addr::IpV6(ip, port) => NetAddress::IpV6(ip, port),
            Socks5Addr::Domain(host, port) => NetAddress::Domain(host, port),
        }
    }

    /// The same address as a SOCKS 5 address.
    pub fn from_net_address(address: NetAddress) -> (res: Socks5Addr)
        ensures
            res@ == address@,
    {
        match address {
            NetAddress::IpV4(ip, port) => Socks5Addr::IpV4(ip, port),
            NetAddress::IpV6(ip, port) => Socks5Addr::IpV6(ip, port),
            NetAddress::Domain(host, port) => Socks5Addr::Domain(host, port),
        }
    }

    /// A copy of this address.
    pub fn duplicate(&self) -> (res: Socks5Addr)
        ensures
            res@ == self@,
    {
        match self {
            Socks5Addr::IpV4(ip, port) => Socks5Addr::IpV4(*ip, *port),
            Socks5Addr::IpV6(ip, port) => Socks5Addr::IpV6(*ip, *port),
            Socks5Addr::Domain(host, port) => Socks5Addr::Domain(host.clone(), *port),
        }
    }
}

/// A client's greeting: the protocol version and the authentication methods it offers.
#[derive(Debug)]
pub struct Socks5AuthCommandContent {
    pub version: u8,
    pub method_number: u8,
    pub methods: Vec<Socks5AuthMethod>,
}

impl Socks5AuthCommandContent {
    /// A version 5 greeting offering `methods`.
    pub fn new(method_number: u8, methods: Vec<Socks5AuthMethod>) -> (res: Self)
        ensures
            res.version == 5,
            res.method_number == method_number,
            res.methods@ == methods@,
    {
        Socks5AuthCommandContent { version: 5, method_number, methods }
    }
}

/// The agent's answer to a greeting: the version and the chosen method.
#[derive(Debug)]
pub struct Socks5AuthCommandResultContent {
    pub version: u8,
    pub method: Socks5AuthMethod,
}

impl Socks5AuthCommandResultContent {
    /// A version 5 answer choosing `method`.
    pub fn new(method: Socks5AuthMethod) -> (res: Self)
        ensures
            res.version == 5,
            res.method == method,
    {
        Socks5AuthCommandResultContent { version: 5, method }
    }
}

/// A client's request: the version, the command and the destination.
#[derive(Debug)]
pub struct Socks5InitCommandContent {
    pub version: u8,
    pub request_type: Socks5InitCommandType,
    pub dest_address: Socks5Addr,
}

impl Socks5InitCommandContent {
    /// A version 5 request for `request_type` to `dest_address`.
    pub fn new(request_type: Socks5InitCommandType, dest_address: Socks5Addr) -> (res: Self)
        ensures
            res.version == 5,
            res.request_type == request_type,
            res.dest_address == dest_address,
    {
        Socks5InitCommandContent { version: 5, request_type, dest_address }
    }
}

/// The agent's reply to a request: the version, the status, and the bound address if any.
#[derive(Debug)]
pub struct Socks5InitCommandResultContent {
    pub version: u8,
    pub status: Socks5InitCommandResultStatus,
    pub bind_address: Option<Socks5Addr>,
}

impl Socks5InitCommandResultContent {
    /// A version 5 reply with `status` and `bind_address`.
    pub fn new(status: Socks5InitCommandResultStatus, bind_address: Option<Socks5Addr>) -> (res: Self)
        ensures
            res.version == 5,
            res.status == status,
            res.bind_address == bind_address,
    {
        Socks5InitCommandResultContent { version: 5, status, bind_address }
    }
}

/// A UDP datagram a client sends through the association: the fragment
/// number, the destination and the data.
#[derive(Debug)]
pub struct Socks5UdpDataCommandContent {
    pub frag: u8,
    pub address: Socks5Addr,
    pub data: Vec<u8>,
}

/// A UDP datagram the agent sends back to a client: the fragment number, the
/// address it came from and the data.
#[derive(Debug)]
pub struct Socks5UdpDataCommandResultContent {
    pub frag: u8,
    pub dest_address: Socks5Addr,
    pub data: Vec<u8>,
}

impl Socks5UdpDataCommandResultContent {
    /// A datagram from its parts.
    pub fn new(frag: u8, dest_address: Socks5Addr, data: Vec<u8>) -> (res: Self)
        ensures
            res.frag == frag,
            res.dest_address == dest_address,
            res.data@ == data@,
    {
        Socks5UdpDataCommandResultContent { frag, dest_address, data }
    }
}

/// A UDP datagram with its header: source and target ports, the data length
/// and the checksum.
#[derive(Debug)]
pub struct UdpDiagram {
    pub source_port: u16,
    pub target_port: u16,
    pub length: u16,
    pub checksum: u16,
    pub data: Vec<u8>,
}

/// The wire form of a datagram: the four header fields big-endian, then the data.
pub open spec fn spec_encode_udp_diagram(source_port: u16, target_port: u16, length: u16, checksum: u16, data: Seq<
    u8,
>) -> Seq<u8> {
    be_u16(source_port) + be_u16(target_port) + be_u16(length) + be_u16(checksum) + data
}

impl UdpDiagram {
    /// Reads a datagram: the four header fields, then as many data bytes as
    /// the length field says. The bytes must hold the header and that much data.
    pub fn from_bytes(bytes: &[u8]) -> (res: UdpDiagram)
        requires
            bytes@.len() >= 8,
            bytes@.len() - 8 >= be_u16_at(bytes@, 4),
        ensures
            res.source_port == be_u16_at(bytes@, 0),
            res.target_port == be_u16_at(bytes@, 2),
            res.length == be_u16_at(bytes@, 4),
            res.checksum == be_u16_at(bytes@, 6),
            res.data@ == bytes@.subrange(8, 8 + res.length),
    {
        let source_port = get_u16(bytes, 0);
        let target_port = get_u16(bytes, 2);
        let length = get_u16(bytes, 4);
        let checksum = get_u16(bytes, 6);
        let data = copy_range(bytes, 8, 8 + length as usize);
        UdpDiagram { source_port, target_port, length, checksum, data }
    }

    /// The wire form of this datagram.
    pub fn to_bytes(&self) -> (res: Vec<u8>)
        ensures
            res@ == spec_encode_udp_diagram(self.source_port, self.target_port, self.length, self.checksum, self.data@),
    {
        let mut res: Vec<u8> = Vec::new();
        put_u16(&mut res, self.source_port);
        put_u16(&mut res, self.target_port);
        put_u16(&mut res, self.length);
        put_u16(&mut res, self.checksum);
        put_slice(&mut res, self.data.as_slice());
        assert(res@ =~= spec_encode_udp_diagram(self.source_port, self.target_port, self.length, self.checksum, self.data@));
        res
    }
}

/// Reading a written datagram gives its header fields back, and its data
/// when the length field gives the data's length.
pub proof fn lemma_udp_diagram_roundtrip(source_port: u16, target_port: u16, length: u16, checksum: u16, data: Seq<u8>)
    requires
        data.len() == length,
    ensures
        ({
            let b = spec_encode_udp_diagram(source_port, target_port, length, checksum, data);
            &&& b.len() >= 8
            &&& b.len() - 8 >= be_u16_at(b, 4)
            &&& be_u16_at(b, 0) == source_port
            &&& be_u16_at(b, 2) == target_port
            &&& be_u16_at(b, 4) == length
            &&& be_u16_at(b, 6) == checksum
            &&& b.subrange(8, 8 + length) == data
        }),
{
    let b = spec_encode_udp_diagram(source_port, target_port, length, checksum, data);
    assert(b.subrange(0, 2) =~= be_u16(source_port));
    assert(b.subrange(2, 4) =~= be_u16(target_port));
    assert(b.subrange(4, 6) =~= be_u16(length));
    assert(b.subrange(6, 8) =~= be_u16(checksum));
    lemma_read_u16(b, 0, source_port);
    lemma_read_u16(b, 2, target_port);
    lemma_read_u16(b, 4, length);
    lemma_read_u16(b, 6, checksum);
    assert(b.subrange(8, 8 + length) =~= data);
}

/// Reads greetings off the client stream and writes the answers.
pub struct Socks5AuthCommandContentCodec;

impl Socks5AuthCommandContentCodec {
    /// Takes a greeting off `src`: `Ok(None)` while fewer than two bytes have
    /// arrived; `CodecError` when the version byte is not 5 (that byte is
    /// consumed); else the greeting with as many methods as its second byte
    /// says, all of which must have arrived.
    pub fn decode(&mut self, src: &mut Vec<u8>) -> (res: Result<Option<Socks5AuthCommandContent>, PpaassError>)
        requires
            old(src)@.len() >= 2 && old(src)@[0] == 5 ==> old(src)@.len() >= 2 + old(src)@[1],
        ensures
            old(src)@.len() < 2 ==> (res matches Ok(None) && final(src)@ == old(src)@),
            old(src)@.len() >= 2 && old(src)@[0] != 5 ==> (res matches Err(e) && e is CodecError && final(src)@ == old(
                src,
            )@.skip(1)),
            old(src)@.len() >= 2 && old(src)@[0] == 5 ==> (res matches Ok(Some(c)) && c.version == 5 && c.method_number
                == old(src)@[1] && c.methods@ == Seq::new(
                old(src)@[1] as nat,
                |i: int| spec_auth_method_of(old(src)@[2 + i]),
            ) && final(src)@ == old(src)@.skip(2 + old(src)@[1])),
    {
        if src.len() < 2 {
            return Ok(None);
        }
        let version = src[0];
        if version != SOCKS5_FLAG {
            drop_front(src, 1);
            return Err(PpaassError::CodecError);
        }
        let methods_number = src[1];
        let n = methods_number as usize;
        let mut methods: Vec<Socks5AuthMethod> = Vec::new();
        let mut i: usize = 0;
        while i < n
            invariant
                i <= n,
                n == src@[1],
                src@.len() >= 2 + n,
                methods@ == Seq::new(i as nat, |k: int| spec_auth_method_of(src@[2 + k])),
            decreases n - i,
        {
            methods.push(Socks5AuthMethod::from_byte(src[2 + i]));
            i = i + 1;
            assert(methods@ =~= Seq::new(i as nat, |k: int| spec_auth_method_of(src@[2 + k])));
        }
        drop_front(src, 2 + n);
        Ok(Some(Socks5AuthCommandContent::new(methods_number, methods)))
    }

    /// Writes an answer: its version byte and its method's byte.
    pub fn encode(&mut self, item: Socks5AuthCommandResultContent, dst: &mut Vec<u8>) -> (res: Result<(), PpaassError>)
        ensures
            res is Ok,
            final(dst)@ == old(dst)@ + seq![item.version, spec_auth_method_byte(item.method)],
    {
        dst.push(item.version);
        dst.push(item.method.to_byte());
        assert(dst@ =~= old(dst)@ + seq![item.version, spec_auth_method_byte(item.method)]);
        Ok(())
    }
}

/// The answer to a client's greeting: no authentication required when a
/// greeting was read, no acceptable method when none was (the stream ended or
/// the greeting did not read).
pub fn answer_greeting(greeting_read: bool) -> (res: Socks5AuthCommandResultContent)
    ensures
        res.version == 5,
        res.method == if greeting_read {
            Socks5AuthMethod::NoAuthenticationRequired
        } else {
            Socks5AuthMethod::NoAcceptableMethods
        },
{
    if greeting_read {
        Socks5AuthCommandResultContent::new(Socks5AuthMethod::NoAuthenticationRequired)
    } else {
        Socks5AuthCommandResultContent::new(Socks5AuthMethod::NoAcceptableMethods)
    }
}

/// Reads requests off the client stream and writes the replies.
pub struct Socks5InitCommandContentCodec;

impl Socks5InitCommandContentCodec {
    /// Takes a request off `src`: `Ok(None)` while fewer than four bytes have
    /// arrived; `CodecError` when the version byte is not 5 (one byte is
    /// consumed) or the command byte names no command (two bytes are
    /// consumed). Otherwise every byte is consumed, and the destination is read
    /// after the reserved byte: `CodecError` when it is not an address.
    pub fn decode(&mut self, src: &mut Vec<u8>) -> (res: Result<Option<Socks5InitCommandContent>, PpaassError>)
        ensures
            old(src)@.len() < 4 ==> (res matches Ok(None) && final(src)@ == old(src)@),
            old(src)@.len() >= 4 && old(src)@[0] != 5 ==> (res matches Err(e) && e is CodecError && final(src)@ == old(
                src,
            )@.skip(1)),
            old(src)@.len() >= 4 && old(src)@[0] == 5 && spec_init_command_type_of(old(src)@[1]) is None ==> (res matches Err(
                e,
            ) && e is CodecError && final(src)@ == old(src)@.skip(2)),
            (old(src)@.len() >= 4 && old(src)@[0] == 5 && spec_init_command_type_of(old(src)@[1]) is Some) ==> {
                let t = spec_init_command_type_of(old(src)@[1])->0;
                final(src)@.len() == 0 && match spec_decode_socks5_addr(old(src)@, 3) {
                None => res matches Err(e) && e is CodecError,
                Some((a, _)) => res matches Ok(Some(c)) && c.version == 5 && c.request_type == t && c.dest_address@ == a,
                }
            },
    {
        if src.len() < 4 {
            return Ok(None);
        }
        if src[0] != SOCKS5_FLAG {
            drop_front(src, 1);
            return Err(PpaassError::CodecError);
        }
        let request_type = match Socks5InitCommandType::try_from_byte(src[1]) {
            Err(_) => {
                drop_front(src, 2);
                return Err(PpaassError::CodecError);
            },
            Ok(v) => v,
        };
        let parsed = Socks5Addr::decode_at(src.as_slice(), 3);
        let len = src.len();
        drop_front(src, len);
        match parsed {
            Err(_) => Err(PpaassError::CodecError),
            Ok((dest_address, _)) => Ok(Some(Socks5InitCommandContent::new(request_type, dest_address))),
        }
    }

    /// Writes a reply: its version byte, its status byte, a zero byte, and the
    /// bound address when there is one.
    pub fn encode(&mut self, item: Socks5InitCommandResultContent, dst: &mut Vec<u8>) -> (res: Result<(), PpaassError>)
        ensures
            res is Ok,
            final(dst)@ == old(dst)@ + seq![item.version, spec_result_status_byte(item.status), 0u8] + match item.bind_address {
                Some(a) => spec_encode_socks5_addr(a@),
                None => Seq::<u8>::empty(),
            },
    {
        dst.push(item.version);
        dst.push(item.status.to_byte());
        dst.push(0u8);
        let ghost mid = dst@;
        match &item.bind_address {
            Some(a) => a.encode_into(dst),
            None => {},
        }
        assert(dst@ =~= old(dst)@ + seq![item.version, spec_result_status_byte(item.status), 0u8] + match item.bind_address {
            Some(a) => spec_encode_socks5_addr(a@),
            None => Seq::<u8>::empty(),
        });
        Ok(())
    }
}

/// Reads UDP datagrams from clients and writes the datagrams sent back to them.
pub struct Socks5UdpDataCommandContentCodec;

impl Socks5UdpDataCommandContentCodec {
    /// Takes a datagram off `src`: `Ok(None)` for no bytes; `CodecError` for
    /// fewer than two (nothing consumed) or three bytes (two consumed).
    /// Otherwise every byte is consumed in reading the destination after the
    /// fragment byte, so the datagram's data always comes out empty;
    /// `CodecError` when the destination is not an address.
    pub fn decode(&mut self, src: &mut Vec<u8>) -> (res: Result<Option<Socks5UdpDataCommandContent>, PpaassError>)
        ensures
            old(src)@.len() == 0 ==> (res matches Ok(None) && final(src)@ == old(src)@),
            0 < old(src)@.len() < 2 ==> (res matches Err(e) && e is CodecError && final(src)@ == old(src)@),
            old(src)@.len() == 2 ==> (res matches Err(e) && e is CodecError && final(src)@ == old(src)@.skip(2)),
            old(src)@.len() >= 3 ==> final(src)@.len() == 0 && match spec_decode_socks5_addr(old(src)@, 3) {
                None => res matches Err(e) && e is CodecError,
                Some((a, _)) => res matches Ok(Some(c)) && c.frag == old(src)@[2] && c.address@ == a && c.data@.len()
                    == 0,
            },
    {
        if src.len() == 0 {
            return Ok(None);
        }
        if src.len() < 2 {
            return Err(PpaassError::CodecError);
        }
        if src.len() < 3 {
            drop_front(src, 2);
            return Err(PpaassError::CodecError);
        }
        let frag = src[2];
        let parsed = Socks5Addr::decode_at(src.as_slice(), 3);
        let len = src.len();
        drop_front(src, len);
        match parsed {
            Err(_) => Err(PpaassError::CodecError),
            Ok((address, _)) => Ok(Some(Socks5UdpDataCommandContent { frag, address, data: Vec::new() })),
        }
    }

    /// Writes a datagram: two zero bytes, the fragment byte, the address and the data.
    pub fn encode(&mut self, item: Socks5UdpDataCommandResultContent, dst: &mut Vec<u8>) -> (res: Result<
        (),
        PpaassError,
    >)
        ensures
            res is Ok,
            final(dst)@ == old(dst)@ + seq![0u8, 0u8, item.frag] + spec_encode_socks5_addr(item.dest_address@)
                + item.data@,
    {
        put_u16(dst, 0);
        dst.push(item.frag);
        item.dest_address.encode_into(dst);
        put_slice(dst, item.data.as_slice());
        assert(be_u16(0) =~= seq![0u8, 0u8]) by {
            assert(((0u16 >> 8u16) as u8) == 0u8 && ((0u16 & 0xffu16) as u8) == 0u8) by (bit_vector);
        }
        assert(dst@ =~= old(dst)@ + seq![0u8, 0u8, item.frag] + spec_encode_socks5_addr(item.dest_address@)
            + item.data@);
        Ok(())
    }
}

/// The protocol a client speaks to the agent.
#[derive(Debug, Clone, Copy, PartialEq, Eq, Structural)]
pub enum Protocol {
    /// An HTTP proxy client.
    Http,
    /// A SOCKS 5 client.
    Socks5,
}

/// Tells the client's protocol from the first byte of its stream.
pub struct SwitchClientProtocolDecoder;

impl SwitchClientProtocolDecoder {
    /// `Ok(None)` on an empty stream; SOCKS 5 for a first byte 5; `CodecError`
    /// for 4 (SOCKS 4 is not served); HTTP for any other byte. Nothing is consumed.
    pub fn decode(&mut self, src: &mut Vec<u8>) -> (res: Result<Option<Protocol>, PpaassError>)
        ensures
            final(src)@ == old(src)@,
            old(src)@.len() == 0 ==> (res matches Ok(None)),
            old(src)@.len() > 0 && old(src)@[0] == 5 ==> (res matches Ok(Some(p)) && p == Protocol::Socks5),
            old(src)@.len() > 0 && old(src)@[0] == 4 ==> (res matches Err(e) && e is CodecError),
            old(src)@.len() > 0 && old(src)@[0] != 5 && old(src)@[0] != 4 ==> (res matches Ok(Some(p)) && p
                == Protocol::Http),
    {
        if src.len() < 1 {
            return Ok(None);
        }
        let protocol_flag = src[0];
        if protocol_flag == SOCKS5_FLAG {
            Ok(Some(Protocol::Socks5))
        } else if protocol_flag == SOCKS4_FLAG {
            Err(PpaassError::CodecError)
        } else {
            Ok(Some(Protocol::Http))
        }
    }
}

} // verus!
