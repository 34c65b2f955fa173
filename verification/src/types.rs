//! Basic QUIC types: versions, connection IDs, stream IDs, addresses and time spans.

use vstd::prelude::*;
use vstd::slice::slice_to_vec;

use crate::rand::random_bytes;
use crate::text::push_hex;

verus! {

/// QUIC v1 (RFC 9000).
pub const NGTCP2_PROTO_VER_V1: u32 = 0x00000001;

/// QUIC v2 (RFC 9369).
pub const NGTCP2_PROTO_VER_V2: u32 = 0x6b3343cf;

/// The largest length of a connection ID in bytes (RFC 9000 Section 17.2).
pub const NGTCP2_MAX_CIDLEN: usize = 20;

/// The smallest length of a generated connection ID in bytes.
pub const NGTCP2_MIN_CIDLEN: usize = 1;

/// A QUIC version.
#[derive(Debug, Clone, Copy, PartialEq, Eq, Structural)]
pub enum QuicVersion {
    /// QUIC v1 (RFC 9000).
    V1,
    /// QUIC v2 (RFC 9369).
    V2,
}

impl QuicVersion {
    /// The value of the version on the wire.
    pub open spec fn wire(self) -> u32 {
        match self {
            QuicVersion::V1 => NGTCP2_PROTO_VER_V1,
            QuicVersion::V2 => NGTCP2_PROTO_VER_V2,
        }
    }

    /// The version whose value on the wire is `version`, if it is known.
    pub open spec fn of_wire(version: u32) -> Option<QuicVersion> {
        if version == NGTCP2_PROTO_VER_V1 {
            Some(QuicVersion::V1)
        } else if version == NGTCP2_PROTO_VER_V2 {
            Some(QuicVersion::V2)
        } else {
            None
        }
    }

    /// Returns the value of the version on the wire.
    pub fn as_u32(self) -> (r: u32)
        ensures
            r == self.wire(),
    {
        match self {
            QuicVersion::V1 => NGTCP2_PROTO_VER_V1,
            QuicVersion::V2 => NGTCP2_PROTO_VER_V2,
        }
    }

    /// Returns the version with this value on the wire, or `None` if it is not known.
    pub fn from_u32(version: u32) -> (r: Option<QuicVersion>)
        ensures
            r == QuicVersion::of_wire(version),
    {
        if version == NGTCP2_PROTO_VER_V1 {
            Some(QuicVersion::V1)
        } else if version == NGTCP2_PROTO_VER_V2 {
            Some(QuicVersion::V2)
        } else {
            None
        }
    }
}

impl Default for QuicVersion {
    fn default() -> (r: QuicVersion)
        ensures
            r == QuicVersion::V1,
    {
        QuicVersion::V1
    }
}

/// A version is found again from its value on the wire, and no other value stands for it.
pub proof fn lemma_version_roundtrip(version: QuicVersion, value: u32)
    ensures
        QuicVersion::of_wire(version.wire()) == Some(version),
        QuicVersion::of_wire(value) == Some(version) ==> value == version.wire(),
{
}

/// QUIC v1 is 1 on the wire (RFC 9000 Section 15) and QUIC v2 is 0x6b3343cf (RFC 9369 Section 3.1). No
/// other value stands for a version.
pub proof fn lemma_version_values(version: QuicVersion, value: u32)
    ensures
        version.wire() == (match version {
            QuicVersion::V1 => 1u32,
            QuicVersion::V2 => 0x6b3343cfu32,
        }),
        QuicVersion::of_wire(value) is Some <==> value == 1 || value == 0x6b3343cf,
{
}

/// A connection ID (RFC 9000 Section 5.1): at most 20 bytes.
#[derive(PartialEq, Eq, Hash, Debug)]
pub struct ConnectionId {
    data: Vec<u8>,
}

impl View for ConnectionId {
    type V = Seq<u8>;

    closed spec fn view(&self) -> Seq<u8> {
        self.data@
    }
}

impl Clone for ConnectionId {
    fn clone(&self) -> (r: ConnectionId)
        ensures
            r@ == self@,
    {
        proof {
            use_type_invariant(self);
        }
        ConnectionId { data: slice_to_vec(self.data.as_slice()) }
    }
}

impl ConnectionId {
    #[verifier::type_invariant]
    closed spec fn wf(self) -> bool {
        self.data@.len() <= NGTCP2_MAX_CIDLEN
    }

    /// Makes a connection ID out of `data`.
    ///
    /// Length 0 is that of an endpoint that uses no connection ID, and may be found in a packet.
    /// Returns `None` if `data` is longer than 20 bytes.
    pub fn new(data: &[u8]) -> (r: Option<ConnectionId>)
        ensures
            (r is Some) == (data@.len() <= NGTCP2_MAX_CIDLEN),
            r matches Some(cid) ==> cid@ == data@,
    {
        if data.len() > NGTCP2_MAX_CIDLEN {
            return None;
        }
        Some(ConnectionId { data: slice_to_vec(data) })
    }

    /// Makes the connection ID of length 0 (RFC 9000 Section 5.1).
    ///
    /// An endpoint that uses no connection ID puts it into its packets; the peer then tells
    /// connections apart by address.
    pub fn empty() -> (r: ConnectionId)
        ensures
            r@ == Seq::<u8>::empty(),
    {
        ConnectionId { data: Vec::new() }
    }

    /// Makes a random connection ID of `len` bytes.
    ///
    /// Returns `None` if `len` is not between 1 and 20.
    pub fn random(len: usize) -> (r: Option<ConnectionId>)
        ensures
            (r is Some) == (NGTCP2_MIN_CIDLEN <= len <= NGTCP2_MAX_CIDLEN),
            r matches Some(cid) ==> cid@.len() == len,
    {
        if len < NGTCP2_MIN_CIDLEN || len > NGTCP2_MAX_CIDLEN {
            return None;
        }
        ConnectionId::from_random(len, random_bytes(len))
    }

    /// Makes a connection ID out of the random bytes that were drawn for one of `len` bytes.
    ///
    /// Returns `None` if `len` is not between 1 and 20, or if there are not as many bytes.
    pub fn from_random(len: usize, drawn: Option<Vec<u8>>) -> (r: Option<ConnectionId>)
        ensures
            (r is Some) == (NGTCP2_MIN_CIDLEN <= len <= NGTCP2_MAX_CIDLEN && (drawn matches Some(
                bytes,
            ) && bytes@.len() == len)),
            r matches Some(cid) ==> (drawn matches Some(bytes) && cid@ == bytes@),
    {
        match drawn {
            Some(data) => if NGTCP2_MIN_CIDLEN <= len && len <= NGTCP2_MAX_CIDLEN && data.len()
                == len {
                Some(ConnectionId { data })
            } else {
                None
            },
            None => None,
        }
    }

    /// Returns the bytes of the connection ID.
    pub fn as_bytes(&self) -> (r: &[u8])
        ensures
            r@ == self@,
            r@.len() <= NGTCP2_MAX_CIDLEN,
    {
        proof {
            use_type_invariant(self);
        }
        self.data.as_slice()
    }

    /// Returns the length in bytes.
    pub fn len(&self) -> (r: usize)
        ensures
            r == self@.len(),
            r <= NGTCP2_MAX_CIDLEN,
    {
        proof {
            use_type_invariant(self);
        }
        self.data.len()
    }

    /// Returns whether the length is 0.
    pub fn is_empty(&self) -> (r: bool)
        ensures
            r == (self@.len() == 0),
    {
        self.data.len() == 0
    }

    /// Returns the connection ID in hexadecimal.
    pub fn display(&self) -> (r: String)
        ensures
            r@ == crate::text::hex(self@),
    {
        let mut out: String = String::new();
        push_hex(&mut out, self.data.as_slice());
        assert(out@ =~= crate::text::hex(self@));
        out
    }

    /// Returns the connection ID in hexadecimal under the name of its type.
    pub fn debug(&self) -> (r: String)
        ensures
            r@ == "ConnectionId("@ + crate::text::hex(self@) + ")"@,
    {
        let mut out: String = String::new();
        out.append("ConnectionId(");
        push_hex(&mut out, self.data.as_slice());
        out.append(")");
        assert(out@ =~= "ConnectionId("@ + crate::text::hex(self@) + ")"@);
        out
    }
}

/// An IP address and a port.
#[derive(Debug, Clone, Copy, PartialEq, Eq, Structural)]
pub enum SocketAddr {
    /// An IPv4 address, its four bytes read as a big-endian number.
    V4 { ip4: u32, port: u16 },
    /// An IPv6 address, its sixteen bytes read as a big-endian number.
    V6 { ip6: u128, port: u16, flowinfo: u32, scope_id: u32 },
}

/// The two ends of a network path.
#[derive(Debug, Clone, Copy, PartialEq, Eq, Structural)]
pub struct PathInfo {
    /// The local address.
    pub local: SocketAddr,
    /// The remote address.
    pub remote: SocketAddr,
}

/// What goes with a packet besides its bytes.
#[derive(Debug, Clone, Copy)]
pub struct PacketInfo {
    /// The ECN mark.
    pub ecn: u8,
}

impl Default for PacketInfo {
    fn default() -> (r: PacketInfo)
        ensures
            r.ecn == 0,
    {
        PacketInfo { ecn: 0 }
    }
}

/// A stream ID (RFC 9000 Section 2.1).
pub type StreamId = i64;

/// Whether data flows both ways on a stream.
#[derive(Debug, Clone, Copy, PartialEq, Eq, Structural)]
pub enum StreamType {
    /// Data flows both ways.
    Bidirectional,
    /// Data flows one way.
    Unidirectional,
}

impl StreamType {
    /// The type of the stream `stream_id`: bit 1 is set on unidirectional streams.
    pub open spec fn of(stream_id: StreamId) -> StreamType {
        if stream_id & 0x2 == 0 {
            StreamType::Bidirectional
        } else {
            StreamType::Unidirectional
        }
    }

    /// Returns the type of the stream `stream_id` (RFC 9000 Section 2.1).
    pub fn from_stream_id(stream_id: StreamId) -> (r: StreamType)
        ensures
            r == StreamType::of(stream_id),
    {
        if stream_id & 0x2 == 0 {
            StreamType::Bidirectional
        } else {
            StreamType::Unidirectional
        }
    }
}

/// Which side opened a stream.
#[derive(Debug, Clone, Copy, PartialEq, Eq, Structural)]
pub enum StreamDirection {
    /// The client opened the stream.
    ClientInitiated,
    /// The server opened the stream.
    ServerInitiated,
}

impl StreamDirection {
    /// The side that opened the stream `stream_id`: bit 0 is set on streams of the server.
    pub open spec fn of(stream_id: StreamId) -> StreamDirection {
        if stream_id & 0x1 == 0 {
            StreamDirection::ClientInitiated
        } else {
            StreamDirection::ServerInitiated
        }
    }

    /// Returns the side that opened the stream `stream_id` (RFC 9000 Section 2.1).
    pub fn from_stream_id(stream_id: StreamId) -> (r: StreamDirection)
        ensures
            r == StreamDirection::of(stream_id),
    {
        if stream_id & 0x1 == 0 {
            StreamDirection::ClientInitiated
        } else {
            StreamDirection::ServerInitiated
        }
    }
}

/// The stream ID modulo four tells both the side that opened a stream and its type.
pub proof fn lemma_stream_id_kinds(stream_id: StreamId)
    requires
        stream_id >= 0,
    ensures
        (StreamDirection::of(stream_id) == StreamDirection::ClientInitiated) == (stream_id % 4 == 0
            || stream_id % 4 == 2),
        (StreamType::of(stream_id) == StreamType::Bidirectional) == (stream_id % 4 == 0 || stream_id
            % 4 == 1),
{
    let n = stream_id as u64;
    assert((n & 1 == 0) == (n % 4 == 0 || n % 4 == 2)) by (bit_vector);
    assert((n & 2 == 0) == (n % 4 == 0 || n % 4 == 1)) by (bit_vector);
}

/// A span of time.
#[derive(Debug, Clone, Copy, PartialEq, Eq, Structural)]
pub struct Duration {
    /// The length of the span in nanoseconds.
    pub nanos: u128,
}

impl Duration {
    /// Makes a span of `secs` seconds.
    pub fn from_secs(secs: u64) -> (r: Duration)
        ensures
            r.nanos == secs * 1_000_000_000,
    {
        Duration { nanos: secs as u128 * 1_000_000_000 }
    }

    /// Makes a span of `millis` milliseconds.
    pub fn from_millis(millis: u64) -> (r: Duration)
        ensures
            r.nanos == millis * 1_000_000,
    {
        Duration { nanos: millis as u128 * 1_000_000 }
    }

    /// Makes a span of `nanos` nanoseconds.
    pub fn from_nanos(nanos: u64) -> (r: Duration)
        ensures
            r.nanos == nanos,
    {
        Duration { nanos: nanos as u128 }
    }

    /// Returns the length of the span in nanoseconds.
    pub fn as_nanos(&self) -> (r: u128)
        ensures
            r == self.nanos,
    {
        self.nanos
    }
}

} // verus!
