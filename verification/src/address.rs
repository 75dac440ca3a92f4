//! The network address carried in every message payload, and its wire form.
use vstd::prelude::*;
use vstd::utf8::{decode_utf8, encode_utf8, encode_utf8_decode_utf8, encode_utf8_valid_utf8, valid_utf8};

use crate::error::PpaassError;
use crate::text::{append_digits, spec_digits, string_bytes, string_from_utf8};

use vstd::string::StringExecFns;
use crate::wire::{be_u16, be_u16_at, be_u32, be_u32_at, copy_range, get_u16, get_u32, lemma_read_u16, lemma_read_u32, put_slice, put_u16, put_u32};

verus! {

/// Wire tag of an IPv4 address.
pub const IPV4_TYPE: u8 = 0;
/// Wire tag of an IPv6 address.
pub const IPV6_TYPE: u8 = 1;
/// Wire tag of a domain address.
pub const DOMAIN_TYPE: u8 = 2;

/// A network address: an IPv4 or IPv6 host with a port, or a domain name with a port.
#[derive(Debug, Clone)]
pub enum NetAddress {
    /// IPv4 host bytes and port.
    IpV4([u8; 4], u16),
    /// IPv6 host bytes and port.
    IpV6([u8; 16], u16),
    /// Domain name and port.
    Domain(String, u16),
}

/// The mathematical model of a [`NetAddress`].
pub enum SpecNetAddress {
    IpV4(Seq<u8>, u16),
    IpV6(Seq<u8>, u16),
    Domain(Seq<char>, u16),
}

impl View for NetAddress {
    type V = SpecNetAddress;

    open spec fn view(&self) -> SpecNetAddress {
        match self {
            NetAddress::IpV4(ip, port) => SpecNetAddress::IpV4(ip@, *port),
            NetAddress::IpV6(ip, port) => SpecNetAddress::IpV6(ip@, *port),
            NetAddress::Domain(host, port) => SpecNetAddress::Domain(host@, *port),
        }
    }
}

/// An address that can be written and read back: host bytes of the right
/// length, and a domain whose UTF-8 length fits the 32-bit length field.
pub open spec fn net_address_wf(a: SpecNetAddress) -> bool {
    match a {
        SpecNetAddress::IpV4(ip, _) => ip.len() == 4,
        SpecNetAddress::IpV6(ip, _) => ip.len() == 16,
        SpecNetAddress::Domain(host, _) => encode_utf8(host).len() <= u32::MAX,
    }
}

/// The wire form of an address: a tag byte, then the host (for a domain, its
/// 32-bit big-endian byte length and its UTF-8 bytes), then the big-endian port.
pub open spec fn spec_encode_net_address(a: SpecNetAddress) -> Seq<u8> {
    match a {
        SpecNetAddress::IpV4(ip, port) => seq![IPV4_TYPE] + ip + be_u16(port),
        SpecNetAddress::IpV6(ip, port) => seq![IPV6_TYPE] + ip + be_u16(port),
        SpecNetAddress::Domain(host, port) => seq![DOMAIN_TYPE] + be_u32(encode_utf8(host).len() as u32)
            + encode_utf8(host) + be_u16(port),
    }
}

/// Reads an address starting at `pos` of `s`: the address and the position
/// just after it, or `None` when the bytes there do not hold one.
pub open spec fn spec_decode_net_address(s: Seq<u8>, pos: int) -> Option<(SpecNetAddress, int)> {
    if pos < 0 || pos >= s.len() {
        None
    } else {
        let rem = s.len() - (pos + 1);
        if s[pos] == IPV4_TYPE {
            if rem < 6 {
                None
            } else {
                Some((SpecNetAddress::IpV4(s.subrange(pos + 1, pos + 5), be_u16_at(s, pos + 5)), pos + 7))
            }
        } else if s[pos] == IPV6_TYPE {
            if rem < 18 {
                None
            } else {
                Some((SpecNetAddress::IpV6(s.subrange(pos + 1, pos + 17), be_u16_at(s, pos + 17)), pos + 19))
            }
        } else if s[pos] == DOMAIN_TYPE {
            if rem < 4 {
                None
            } else {
                let n = be_u32_at(s, pos + 1) as int;
                if rem - 4 < n + 2 {
                    None
                } else if !valid_utf8(s.subrange(pos + 5, pos + 5 + n)) {
                    None
                } else {
                    Some((
                        SpecNetAddress::Domain(decode_utf8(s.subrange(pos + 5, pos + 5 + n)), be_u16_at(s, pos + 5 + n)),
                        pos + 7 + n,
                    ))
                }
            }
        } else {
            None
        }
    }
}

/// Reading an address back from its wire form, whatever bytes stand before and
/// after it, gives the address and the position just after its bytes.
pub proof fn lemma_net_address_roundtrip(a: SpecNetAddress, pre: Seq<u8>, rest: Seq<u8>)
    requires
        net_address_wf(a),
    ensures
        spec_decode_net_address(pre + spec_encode_net_address(a) + rest, pre.len() as int)
            == Some((a, pre.len() + spec_encode_net_address(a).len() as int)),
{
    let e = spec_encode_net_address(a);
    let s = pre + e + rest;
    let p = pre.len() as int;
    assert(s.subrange(p, p + e.len()) =~= e);
    assert(s[p] == e[0]);
    match a {
        SpecNetAddress::IpV4(ip, port) => {
            assert(s.subrange(p + 1, p + 5) =~= ip);
            assert(s.subrange(p + 5, p + 7) =~= be_u16(port));
            lemma_read_u16(s, p + 5, port);
        },
        SpecNetAddress::IpV6(ip, port) => {
            assert(s.subrange(p + 1, p + 17) =~= ip);
            assert(s.subrange(p + 17, p + 19) =~= be_u16(port));
            lemma_read_u16(s, p + 17, port);
        },
        SpecNetAddress::Domain(host, port) => {
            let hb = encode_utf8(host);
            let n = hb.len() as int;
            assert(s.subrange(p + 1, p + 5) =~= be_u32(hb.len() as u32));
            lemma_read_u32(s, p + 1, hb.len() as u32);
            assert(s.subrange(p + 5, p + 5 + n) =~= hb);
            assert(s.subrange(p + 5 + n, p + 7 + n) =~= be_u16(port));
            lemma_read_u16(s, p + 5 + n, port);
            encode_utf8_valid_utf8(host);
            encode_utf8_decode_utf8(host);
        },
    }
}

/// `n` in decimal.
pub open spec fn spec_dec(n: nat) -> Seq<char> {
    spec_digits(n, 10)
}

/// `n` in lowercase hexadecimal.
pub open spec fn spec_hex(n: nat) -> Seq<char> {
    spec_digits(n, 16)
}

/// The text form of an address: an IPv4 host as four decimal bytes joined by
/// dots, an IPv6 host as eight hexadecimal 16-bit groups joined by colons, a
/// domain as it is; then a colon and the decimal port.
pub open spec fn spec_address_text(a: SpecNetAddress) -> Seq<char> {
    match a {
        SpecNetAddress::IpV4(ip, port) => spec_dec(ip[0] as nat) + seq!['.'] + spec_dec(ip[1] as nat) + seq!['.']
            + spec_dec(ip[2] as nat) + seq!['.'] + spec_dec(ip[3] as nat) + seq![':'] + spec_dec(port as nat),
        SpecNetAddress::IpV6(ip, port) => spec_hex(be_u16_at(ip, 0) as nat) + seq![':'] + spec_hex(
            be_u16_at(ip, 2) as nat,
        ) + seq![':'] + spec_hex(be_u16_at(ip, 4) as nat) + seq![':'] + spec_hex(be_u16_at(ip, 6) as nat) + seq![':']
            + spec_hex(be_u16_at(ip, 8) as nat) + seq![':'] + spec_hex(be_u16_at(ip, 10) as nat) + seq![':'] + spec_hex(
            be_u16_at(ip, 12) as nat,
        ) + seq![':'] + spec_hex(be_u16_at(ip, 14) as nat) + seq![':'] + spec_dec(port as nat),
        SpecNetAddress::Domain(host, port) => host + seq![':'] + spec_dec(port as nat),
    }
}

/// Appends `c`, a one-character text.
fn append_char_text(s: &mut String, c: &str)
    requires
        c@.len() == 1,
    ensures
        final(s)@ == old(s)@.push(c@[0]),
{
    s.append(c);
    assert(s@ =~= old(s)@.push(c@[0]));
}

/// The text form of an address with host bytes `ip` and port `port`; see [`spec_address_text`].
pub fn address_text(a: &NetAddress) -> (res: String)
    ensures
        res@ == spec_address_text(a@),
{
    let mut s = String::new();
    proof {
        reveal_strlit(".");
        reveal_strlit(":");
    }
    match a {
        NetAddress::IpV4(ip, port) => {
            append_digits(&mut s, ip[0] as u64, 10);
            append_char_text(&mut s, ".");
            append_digits(&mut s, ip[1] as u64, 10);
            append_char_text(&mut s, ".");
            append_digits(&mut s, ip[2] as u64, 10);
            append_char_text(&mut s, ".");
            append_digits(&mut s, ip[3] as u64, 10);
            append_char_text(&mut s, ":");
            append_digits(&mut s, *port as u64, 10);
        },
        NetAddress::IpV6(ip, port) => {
            let mut i: usize = 0;
            let ghost ipv = ip@;
            while i < 16
                invariant
                    i <= 16,
                    i % 2 == 0,
                    ipv == ip@,
                    ipv.len() == 16,
                    s@ == spec_ipv6_groups(ipv, (i / 2) as nat),
                decreases 16 - i,
            {
                proof {
                    reveal_strlit(":");
                }
                let group = get_u16(ip.as_slice(), i);
                append_digits(&mut s, group as u64, 16);
                append_char_text(&mut s, ":");
                i = i + 2;
            }
            append_digits(&mut s, *port as u64, 10);
            proof {
                reveal_with_fuel(spec_ipv6_groups, 9);
            }
            assert(s@ =~= spec_address_text(a@));
        },
        NetAddress::Domain(host, port) => {
            s.append(host.as_str());
            append_char_text(&mut s, ":");
            append_digits(&mut s, *port as u64, 10);
        },
    }
    assert(s@ =~= spec_address_text(a@));
    s
}

/// The first `k` hexadecimal 16-bit groups of an IPv6 host, each followed by a colon.
pub open spec fn spec_ipv6_groups(ip: Seq<u8>, k: nat) -> Seq<char>
    decreases k,
{
    if k == 0 {
        Seq::empty()
    } else {
        spec_ipv6_groups(ip, (k - 1) as nat) + spec_hex(be_u16_at(ip, 2 * (k - 1)) as nat) + seq![':']
    }
}

impl NetAddress {
    /// The text form; see [`spec_address_text`].
    pub fn to_string(&self) -> (res: String)
        ensures
            res@ == spec_address_text(self@),
    {
        address_text(self)
    }

    /// The all-zero IPv4 address with port 0.
    pub fn default_address() -> (res: NetAddress)
        ensures
            res@ == SpecNetAddress::IpV4(seq![0u8, 0u8, 0u8, 0u8], 0),
    {
        let res = NetAddress::IpV4([0u8, 0u8, 0u8, 0u8], 0);
        assert(res@ == SpecNetAddress::IpV4(seq![0u8, 0u8, 0u8, 0u8], 0));
        res
    }

    /// A copy of this address.
    pub fn duplicate(&self) -> (res: NetAddress)
        ensures
            res@ == self@,
    {
        match self {
            NetAddress::IpV4(ip, port) => NetAddress::IpV4(*ip, *port),
            NetAddress::IpV6(ip, port) => NetAddress::IpV6(*ip, *port),
            NetAddress::Domain(host, port) => NetAddress::Domain(host.clone(), *port),
        }
    }

    /// Appends the wire form of this address to `buf`.
    pub fn encode_into(&self, buf: &mut Vec<u8>)
        ensures
            final(buf)@ == old(buf)@ + spec_encode_net_address(self@),
    {
        match self {
            NetAddress::IpV4(ip, port) => {
                buf.push(IPV4_TYPE);
                put_slice(buf, ip.as_slice());
                put_u16(buf, *port);
            },
            NetAddress::IpV6(ip, port) => {
                buf.push(IPV6_TYPE);
                put_slice(buf, ip.as_slice());
                put_u16(buf, *port);
            },
            NetAddress::Domain(host, port) => {
                let bytes = string_bytes(host);
                buf.push(DOMAIN_TYPE);
                put_u32(buf, bytes.len() as u32);
                put_slice(buf, bytes);
                put_u16(buf, *port);
            },
        }
        assert(buf@ =~= old(buf)@ + spec_encode_net_address(self@));
    }

    /// The wire form of this address.
    pub fn encode(&self) -> (res: Vec<u8>)
        ensures
            res@ == spec_encode_net_address(self@),
    {
        let mut buf: Vec<u8> = Vec::new();
        self.encode_into(&mut buf);
        assert(buf@ =~= spec_encode_net_address(self@));
        buf
    }

    /// Reads an address starting at `pos` of `s`, giving the address and the
    /// position just after it; fails with `CodecError` exactly when the bytes
    /// there do not hold an address.
    pub fn decode_at(s: &[u8], pos: usize) -> (res: Result<(NetAddress, usize), PpaassError>)
        ensures
            match res {
                Ok((a, p)) => spec_decode_net_address(s@, pos as int) == Some((a@, p as int)),
                Err(e) => spec_decode_net_address(s@, pos as int) is None && e is CodecError,
            },
    {
        let len = s.len();
        if pos >= len {
            return Err(PpaassError::CodecError);
        }
        let address_type = s[pos];
        let rem = len - (pos + 1);
        if address_type == IPV4_TYPE {
            if rem < 6 {
                return Err(PpaassError::CodecError);
            }
            let ip = [s[pos + 1], s[pos + 2], s[pos + 3], s[pos + 4]];
            let port = get_u16(s, pos + 5);
            let res = NetAddress::IpV4(ip, port);
            assert(res@ == SpecNetAddress::IpV4(s@.subrange(pos + 1, pos + 5), port)) by {
                assert(ip@ =~= s@.subrange(pos + 1, pos + 5));
            }
            Ok((res, pos + 7))
        } else if address_type == IPV6_TYPE {
            if rem < 18 {
                return Err(PpaassError::CodecError);
            }
            let ip = [
                s[pos + 1], s[pos + 2], s[pos + 3], s[pos + 4], s[pos + 5], s[pos + 6], s[pos + 7], s[pos + 8],
                s[pos + 9], s[pos + 10], s[pos + 11], s[pos + 12], s[pos + 13], s[pos + 14], s[pos + 15], s[pos + 16],
            ];
            let port = get_u16(s, pos + 17);
            let res = NetAddress::IpV6(ip, port);
            assert(res@ == SpecNetAddress::IpV6(s@.subrange(pos + 1, pos + 17), port)) by {
                assert(ip@ =~= s@.subrange(pos + 1, pos + 17));
            }
            Ok((res, pos + 19))
        } else if address_type == DOMAIN_TYPE {
            if rem < 4 {
                return Err(PpaassError::CodecError);
            }
            let n = get_u32(s, pos + 1) as usize;
            if n > rem - 4 || rem - 4 - n < 2 {
                return Err(PpaassError::CodecError);
            }
            let host_bytes = copy_range(s, pos + 5, pos + 5 + n);
            match string_from_utf8(host_bytes) {
                None => Err(PpaassError::CodecError),
                Some(host) => {
                    let port = get_u16(s, pos + 5 + n);
                    Ok((NetAddress::Domain(host, port), pos + 7 + n))
                },
            }
        } else {
            Err(PpaassError::CodecError)
        }
    }

    /// Reads an address from the start of `s`.
    pub fn decode(s: &[u8]) -> (res: Result<NetAddress, PpaassError>)
        ensures
            match res {
                Ok(a) => exists|p: int| spec_decode_net_address(s@, 0) == Some((a@, p)),
                Err(e) => spec_decode_net_address(s@, 0) is None && e is CodecError,
            },
    {
        match NetAddress::decode_at(s, 0) {
            Ok((a, _)) => Ok(a),
            Err(e) => Err(e),
        }
    }
}

} // verus!
