//! Connection IDs and socket addresses in the fixed layouts of the engine.

use vstd::prelude::*;
use vstd::slice::slice_subrange;

use crate::bytes::{lemma_be_bytes_len, lemma_be_roundtrip, lemma_pow256_values};
use crate::types::{ConnectionId, PathInfo, SocketAddr};

verus! {

/// A connection ID in an array of fixed size.
pub struct RawCid {
    /// The length in bytes.
    pub datalen: usize,
    /// The bytes, and zeros behind them.
    pub data: [u8; 20],
}

impl RawCid {
    /// The bytes of the connection ID.
    pub open spec fn bytes(self) -> Seq<u8> {
        self.data@.take(self.datalen as int)
    }
}

/// Returns `cid` in an array of fixed size, filled up with zeros.
pub fn cid_to_raw(cid: &ConnectionId) -> (r: RawCid)
    ensures
        r.datalen == cid@.len(),
        r.data@ == cid@ + Seq::new((20 - cid@.len()) as nat, |i: int| 0u8),
        r.bytes() == cid@,
{
    let bytes: &[u8] = cid.as_bytes();
    let mut data: [u8; 20] = [0; 20];
    let mut i: usize = 0;
    while i < bytes.len()
        invariant
            i <= bytes@.len() <= 20,
            data@.len() == 20,
            forall|j: int| 0 <= j < i ==> data@[j] == bytes@[j],
            forall|j: int| i <= j < 20 ==> data@[j] == 0,
        decreases bytes@.len() - i,
    {
        data[i] = bytes[i];
        i = i + 1;
    }
    assert(data@ =~= cid@ + Seq::new((20 - cid@.len()) as nat, |i: int| 0u8));
    assert(data@.take(cid@.len() as int) =~= cid@);
    RawCid { datalen: bytes.len(), data }
}

/// Returns the connection ID that `raw` holds.
pub fn cid_from_raw(raw: &RawCid) -> (r: Option<ConnectionId>)
    requires
        raw.datalen <= 20,
    ensures
        r matches Some(cid) && cid@ == raw.bytes(),
{
    let bytes: &[u8] = slice_subrange(raw.data.as_slice(), 0, raw.datalen);
    assert(bytes@ =~= raw.bytes());
    ConnectionId::new(bytes)
}

/// The family of a socket address.
#[derive(Debug, Clone, Copy, PartialEq, Eq, Structural)]
pub enum AddressFamily {
    /// IPv4.
    Inet,
    /// IPv6.
    Inet6,
    /// Any other family.
    Other,
}

impl AddressFamily {
    /// Returns the family with this number, given those of the platform for IPv4 and IPv6.
    pub fn from_number(number: i32, inet: i32, inet6: i32) -> (r: AddressFamily)
        ensures
            r == (if number == inet {
                AddressFamily::Inet
            } else if number == inet6 {
                AddressFamily::Inet6
            } else {
                AddressFamily::Other
            }),
    {
        if number == inet {
            AddressFamily::Inet
        } else if number == inet6 {
            AddressFamily::Inet6
        } else {
            AddressFamily::Other
        }
    }
}

/// The size of an IPv4 socket address in memory.
pub const SOCKADDR_IN_LEN: u32 = 16;

/// The size of an IPv6 socket address in memory.
pub const SOCKADDR_IN6_LEN: u32 = 28;

/// A socket address with its fields in network byte order.
#[derive(Debug, Clone, Copy)]
pub struct RawSockaddr {
    /// The address family.
    pub family: AddressFamily,
    /// The size of the address in memory.
    pub len: u32,
    /// The port, in network byte order.
    pub port: [u8; 2],
    /// The IP address, in network byte order; an IPv4 address takes the first four bytes.
    pub addr: [u8; 16],
    /// The IPv6 flow information.
    pub flowinfo: u32,
    /// The IPv6 scope.
    pub scope_id: u32,
}

/// The port that is written as `s`.
pub open spec fn port_of(s: Seq<u8>) -> u16 {
    crate::bytes::be_value(s) as u16
}

impl RawSockaddr {
    /// The socket address that this stands for, if its family is known and it is long enough.
    ///
    /// Flow information and scope are not read.
    pub open spec fn address(self) -> Option<SocketAddr> {
        match self.family {
            AddressFamily::Inet => if self.len < SOCKADDR_IN_LEN {
                None
            } else {
                Some(
                    SocketAddr::V4 {
                        ip4: crate::bytes::be_value(self.addr@.take(4)) as u32,
                        port: port_of(self.port@),
                    },
                )
            },
            AddressFamily::Inet6 => if self.len < SOCKADDR_IN6_LEN {
                None
            } else {
                Some(
                    SocketAddr::V6 {
                        ip6: crate::bytes::be_value(self.addr@) as u128,
                        port: port_of(self.port@),
                        flowinfo: 0,
                        scope_id: 0,
                    },
                )
            },
            AddressFamily::Other => None,
        }
    }

    /// Whether this is `addr`, with flow information and scope where `keep_scope` says so.
    pub open spec fn holds(self, addr: SocketAddr, keep_scope: bool) -> bool {
        match addr {
            SocketAddr::V4 { ip4, port } => {
                &&& self.family == AddressFamily::Inet
                &&& self.len == SOCKADDR_IN_LEN
                &&& self.port@ == crate::bytes::be_bytes(port as nat, 2)
                &&& self.addr@.take(4) == crate::bytes::be_bytes(ip4 as nat, 4)
                &&& forall|j: int| 4 <= j < 16 ==> self.addr@[j] == 0
                &&& self.flowinfo == 0
                &&& self.scope_id == 0
            },
            SocketAddr::V6 { ip6, port, flowinfo, scope_id } => {
                &&& self.family == AddressFamily::Inet6
                &&& self.len == SOCKADDR_IN6_LEN
                &&& self.port@ == crate::bytes::be_bytes(port as nat, 2)
                &&& self.addr@ == crate::bytes::be_bytes(ip6 as nat, 16)
                &&& self.flowinfo == (if keep_scope {
                    flowinfo
                } else {
                    0
                })
                &&& self.scope_id == (if keep_scope {
                    scope_id
                } else {
                    0
                })
            },
        }
    }
}

/// `addr` without flow information and scope.
pub open spec fn without_scope(addr: SocketAddr) -> SocketAddr {
    match addr {
        SocketAddr::V4 { ip4, port } => addr,
        SocketAddr::V6 { ip6, port, flowinfo, scope_id } => SocketAddr::V6 {
            ip6,
            port,
            flowinfo: 0,
            scope_id: 0,
        },
    }
}

/// The powers of 256 that an IPv6 address reaches.
proof fn lemma_pow256_16()
    ensures
        crate::bytes::pow256(16) == 0x1_0000_0000_0000_0000_0000_0000_0000_0000,
{
    reveal_with_fuel(crate::bytes::pow256, 17);
}

/// An address is read back from its fields in network byte order; flow information and scope are
/// lost.
pub proof fn lemma_sockaddr_roundtrip(raw: RawSockaddr, addr: SocketAddr, keep_scope: bool)
    requires
        raw.holds(addr, keep_scope),
    ensures
        raw.address() == Some(without_scope(addr)),
{
    lemma_pow256_values();
    lemma_pow256_16();
    match addr {
        SocketAddr::V4 { ip4, port } => {
            lemma_be_roundtrip(port as nat, 2);
            lemma_be_roundtrip(ip4 as nat, 4);
        },
        SocketAddr::V6 { ip6, port, flowinfo, scope_id } => {
            lemma_be_roundtrip(port as nat, 2);
            lemma_be_roundtrip(ip6 as nat, 16);
        },
    }
}

/// Only flow information and scope are lost, and only IPv6 has them.
pub proof fn lemma_only_scope_is_lost(addr: SocketAddr)
    ensures
        addr is V4 ==> without_scope(addr) == addr,
        addr matches SocketAddr::V6 { ip6, port, flowinfo, scope_id } ==> (without_scope(addr)
            matches SocketAddr::V6 { ip6: ip, port: p, flowinfo: f, scope_id: s } && ip == ip6 && p
            == port && f == 0 && s == 0),
{
}

/// Port and address are in network byte order: the byte of the highest weight comes first.
pub proof fn lemma_network_order(raw: RawSockaddr, addr: SocketAddr, keep_scope: bool)
    requires
        raw.holds(addr, keep_scope),
    ensures
        addr matches SocketAddr::V4 { ip4, port } ==> {
            &&& raw.port@[0] == port / 0x100 && raw.port@[1] == port % 0x100
            &&& raw.addr@[0] == ip4 / 0x100_0000
            &&& raw.addr@[1] == ip4 / 0x1_0000 % 0x100
            &&& raw.addr@[2] == ip4 / 0x100 % 0x100
            &&& raw.addr@[3] == ip4 % 0x100
        },
        addr matches SocketAddr::V6 { ip6, port, flowinfo, scope_id } ==> {
            &&& raw.port@[0] == port / 0x100 && raw.port@[1] == port % 0x100
            &&& raw.addr@[15] == ip6 % 0x100
            &&& raw.addr@[14] == ip6 / 0x100 % 0x100
        },
{
    reveal_with_fuel(crate::bytes::be_bytes, 5);
    match addr {
        SocketAddr::V4 { ip4, port } => {
            let n = ip4 as int;
            vstd::arithmetic::div_mod::lemma_div_denominator(n, 0x100, 0x100);
            vstd::arithmetic::div_mod::lemma_div_denominator(n, 0x1_0000, 0x100);
            let s = raw.addr@.take(4);
            assert(raw.addr@[0] == s[0] && raw.addr@[1] == s[1] && raw.addr@[2] == s[2]
                && raw.addr@[3] == s[3]);
        },
        SocketAddr::V6 { ip6, port, flowinfo, scope_id } => {
            crate::bytes::lemma_be_bytes_len((ip6 / 256 / 256) as nat, 14);
            crate::bytes::lemma_be_bytes_len((ip6 / 256) as nat, 15);
        },
    }
}

/// An address is read from its bytes in network byte order, if it is long enough for its family; the
/// two families never stand for the same address.
pub proof fn lemma_address_bytes(raw: RawSockaddr)
    ensures
        raw.family == AddressFamily::Inet ==> (raw.address() is Some <==> raw.len >= 16),
        raw.family == AddressFamily::Inet6 ==> (raw.address() is Some <==> raw.len >= 28),
        raw.family == AddressFamily::Other ==> raw.address() is None,
        raw.address() matches Some(SocketAddr::V4 { ip4, port }) ==> {
            &&& raw.family == AddressFamily::Inet
            &&& port == raw.port@[0] * 0x100 + raw.port@[1]
            &&& ip4 == raw.addr@[0] * 0x100_0000 + raw.addr@[1] * 0x1_0000 + raw.addr@[2] * 0x100
                + raw.addr@[3]
        },
        raw.address() matches Some(SocketAddr::V6 { ip6, port, flowinfo, scope_id }) ==> {
            &&& raw.family == AddressFamily::Inet6
            &&& port == raw.port@[0] * 0x100 + raw.port@[1]
            &&& flowinfo == 0 && scope_id == 0
            &&& ip6 % 0x100 == raw.addr@[15]
        },
{
    let p = raw.port@;
    assert(p.drop_last().drop_last() =~= Seq::<u8>::empty());
    reveal_with_fuel(crate::bytes::be_value, 5);
    let a = raw.addr@.take(4);
    let a3 = a.drop_last();
    let a2 = a3.drop_last();
    let a1 = a2.drop_last();
    assert(a1.drop_last() =~= Seq::<u8>::empty());
    crate::bytes::lemma_be_value_bound(raw.addr@);
    lemma_pow256_16();
}

/// Writes `value` in network byte order to the first `len` bytes of an address.
fn put_be(value: u128, len: usize) -> (r: [u8; 16])
    requires
        len <= 16,
    ensures
        r@.take(len as int) == crate::bytes::be_bytes(value as nat, len as nat),
        forall|j: int| len <= j < 16 ==> r@[j] == 0,
{
    let mut out: [u8; 16] = [0; 16];
    let ghost plain = crate::bytes::be_bytes(value as nat, len as nat);
    proof {
        lemma_be_bytes_len(value as nat, len as nat);
    }
    let mut rest: u128 = value;
    let mut i: usize = len;
    while i > 0
        invariant
            i <= len <= 16,
            out@.len() == 16,
            plain.len() == len,
            plain == crate::bytes::be_bytes(rest as nat, i as nat) + plain.skip(i as int),
            crate::bytes::be_bytes(rest as nat, i as nat).len() == i,
            forall|j: int| i <= j < len ==> out@[j] == plain[j],
            forall|j: int| len <= j < 16 ==> out@[j] == 0,
        decreases i,
    {
        i = i - 1;
        let ghost head = crate::bytes::be_bytes(rest as nat, (i + 1) as nat);
        assert(head == crate::bytes::be_bytes((rest / 256) as nat, i as nat).push(
            (rest as nat % 256) as u8,
        ));
        assert(plain[i as int] == head[i as int]);
        out[i] = (rest % 256) as u8;
        rest = rest / 256;
        assert(plain =~= crate::bytes::be_bytes(rest as nat, i as nat) + plain.skip(i as int));
    }
    assert(out@.take(len as int) =~= plain);
    out
}

/// Reads the first `len` bytes of an address in network byte order.
fn get_be(bytes: &[u8; 16], len: usize) -> (r: u128)
    requires
        len <= 16,
    ensures
        r == crate::bytes::be_value(bytes@.take(len as int)),
{
    let mut value: u128 = 0;
    let mut i: usize = 0;
    assert(bytes@.take(0) =~= Seq::<u8>::empty());
    while i < len
        invariant
            i <= len <= 16,
            bytes@.len() == 16,
            value == crate::bytes::be_value(bytes@.take(i as int)),
        decreases len - i,
    {
        proof {
            let next = bytes@.take(i + 1);
            assert(next.drop_last() =~= bytes@.take(i as int));
            crate::bytes::lemma_be_value_bound(next);
            lemma_pow256_bound((i + 1) as nat);
            lemma_pow256_16();
        }
        value = value * 256 + bytes[i] as u128;
        i = i + 1;
    }
    value
}

/// Powers of 256 grow with the exponent.
proof fn lemma_pow256_bound(len: nat)
    requires
        len <= 16,
    ensures
        crate::bytes::pow256(len) <= crate::bytes::pow256(16),
    decreases 16 - len,
{
    if len < 16 {
        lemma_pow256_bound(len + 1);
    }
}

/// Returns `addr` with its fields in network byte order.
pub fn sockaddr_to_raw(addr: &SocketAddr) -> (r: RawSockaddr)
    ensures
        r.holds(*addr, true),
{
    match *addr {
        SocketAddr::V4 { ip4, port } => RawSockaddr {
            family: AddressFamily::Inet,
            len: SOCKADDR_IN_LEN,
            port: port_to_raw(port),
            addr: put_be(ip4 as u128, 4),
            flowinfo: 0,
            scope_id: 0,
        },
        SocketAddr::V6 { ip6, port, flowinfo, scope_id } => {
            let bytes: [u8; 16] = put_be(ip6, 16);
            assert(bytes@.take(16) =~= bytes@);
            RawSockaddr {
                family: AddressFamily::Inet6,
                len: SOCKADDR_IN6_LEN,
                port: port_to_raw(port),
                addr: bytes,
                flowinfo,
                scope_id,
            }
        },
    }
}

/// Returns a port in network byte order.
fn port_to_raw(port: u16) -> (r: [u8; 2])
    ensures
        r@ == crate::bytes::be_bytes(port as nat, 2),
{
    let r: [u8; 2] = [(port / 256) as u8, (port % 256) as u8];
    proof {
        reveal_with_fuel(crate::bytes::be_bytes, 3);
        assert(r@ =~= crate::bytes::be_bytes(port as nat, 2));
    }
    r
}

/// Returns the socket address that `raw` stands for.
///
/// Returns `None` if the family is not known or `raw` is too short.
pub fn sockaddr_from_raw(raw: &RawSockaddr) -> (r: Option<SocketAddr>)
    ensures
        r == raw.address(),
{
    proof {
        reveal_with_fuel(crate::bytes::be_value, 3);
        assert(raw.port@.drop_last().drop_last() =~= Seq::<u8>::empty());
        lemma_pow256_values();
        crate::bytes::lemma_be_value_bound(raw.addr@.take(4));
        assert(raw.addr@.take(16) =~= raw.addr@);
    }
    let port: u16 = raw.port[0] as u16 * 256 + raw.port[1] as u16;
    match raw.family {
        AddressFamily::Inet => if raw.len < SOCKADDR_IN_LEN {
            None
        } else {
            Some(SocketAddr::V4 { ip4: get_be(&raw.addr, 4) as u32, port })
        },
        AddressFamily::Inet6 => if raw.len < SOCKADDR_IN6_LEN {
            None
        } else {
            Some(
                SocketAddr::V6 { ip6: get_be(&raw.addr, 16), port, flowinfo: 0, scope_id: 0 },
            )
        },
        AddressFamily::Other => None,
    }
}

/// The path between two addresses, if both can be read.
pub open spec fn path_of(local: Option<RawSockaddr>, remote: Option<RawSockaddr>) -> Option<
    PathInfo,
> {
    match (local, remote) {
        (Some(l), Some(r)) => match (l.address(), r.address()) {
            (Some(local), Some(remote)) => Some(PathInfo { local, remote }),
            _ => None,
        },
        _ => None,
    }
}

/// Returns the path between two addresses, or `None` if one of them is missing or cannot be read.
pub fn path_info_from_raw(local: Option<RawSockaddr>, remote: Option<RawSockaddr>) -> (r: Option<
    PathInfo,
>)
    ensures
        r == path_of(local, remote),
{
    match (local, remote) {
        (Some(l), Some(r)) => match (sockaddr_from_raw(&l), sockaddr_from_raw(&r)) {
            (Some(local), Some(remote)) => Some(PathInfo { local, remote }),
            _ => None,
        },
        _ => None,
    }
}

/// Selects the preferred address of a server (RFC 9000 Section 9.6).
///
/// The client moves to the preferred address of the family that it uses already, if the server
/// has one; otherwise it stays.
pub fn select_preferred_addr_callback(
    family: AddressFamily,
    ipv4: Option<RawSockaddr>,
    ipv6: Option<RawSockaddr>,
) -> (r: Option<RawSockaddr>)
    ensures
        r == (match family {
            AddressFamily::Inet => ipv4,
            AddressFamily::Inet6 => ipv6,
            AddressFamily::Other => None,
        }),
{
    match family {
        AddressFamily::Inet => ipv4,
        AddressFamily::Inet6 => ipv6,
        AddressFamily::Other => None,
    }
}

} // verus!
