//! Reading the version of a packet, and Version Negotiation (RFC 9000 Section 6).

use vstd::prelude::*;
use vstd::slice::slice_subrange;

use crate::bytes::{lemma_be_bytes_len, put};
use crate::error::{Error, NGTCP2_ERR_NOBUF};
use crate::packet::lemma_version_bytes;
use crate::rand::random_bytes;
use crate::types::{ConnectionId, QuicVersion, NGTCP2_MAX_CIDLEN};

verus! {

/// The smallest size of a datagram that carries an Initial packet (RFC 9000 Section 14.1).
pub const MIN_INITIAL_DATAGRAM_SIZE: usize = 1200;

/// The type of a long header packet.
///
/// Its two bits mean different things in QUIC v1 (RFC 9000 Section 17.2) and v2 (RFC 9369
/// Section 3.2).
#[derive(Debug, Clone, Copy, PartialEq, Eq, Structural)]
pub enum LongHeaderType {
    /// An Initial packet.
    Initial,
    /// A 0-RTT packet.
    ZeroRtt,
    /// A Handshake packet.
    Handshake,
    /// A Retry packet.
    Retry,
}

/// The type of a long header packet of QUIC v1 or v2.
pub open spec fn header_type_of(version: QuicVersion, bits: nat) -> LongHeaderType {
    match version {
        QuicVersion::V1 => if bits == 0 {
            LongHeaderType::Initial
        } else if bits == 1 {
            LongHeaderType::ZeroRtt
        } else if bits == 2 {
            LongHeaderType::Handshake
        } else {
            LongHeaderType::Retry
        },
        QuicVersion::V2 => if bits == 1 {
            LongHeaderType::Initial
        } else if bits == 2 {
            LongHeaderType::ZeroRtt
        } else if bits == 3 {
            LongHeaderType::Handshake
        } else {
            LongHeaderType::Retry
        },
    }
}

/// The type of a long header packet, where its version is known.
pub open spec fn long_type(version: u32, first_byte: u8) -> Option<LongHeaderType> {
    match QuicVersion::of_wire(version) {
        Some(known) => Some(header_type_of(known, crate::packet::type_bits(first_byte))),
        None => None,
    }
}

/// Returns the type of a long header packet with this version and first byte.
///
/// Returns `None` for a version that is not known, whose header may be laid out otherwise, and
/// for Version Negotiation (version 0), whose type bits are random.
pub fn long_header_type(version: u32, first_byte: u8) -> (r: Option<LongHeaderType>)
    ensures
        r == long_type(version, first_byte),
{
    match QuicVersion::from_u32(version) {
        Some(known) => Some(type_in_version(known, first_byte)),
        None => None,
    }
}

/// Returns the type of a long header packet with this first byte in QUIC v1 or v2.
pub fn type_in_version(version: QuicVersion, first_byte: u8) -> (r: LongHeaderType)
    ensures
        r == header_type_of(version, crate::packet::type_bits(first_byte)),
{
    let bits: u8 = (first_byte / 16) % 4;
    match version {
        QuicVersion::V1 => match bits {
            0 => LongHeaderType::Initial,
            1 => LongHeaderType::ZeroRtt,
            2 => LongHeaderType::Handshake,
            _ => LongHeaderType::Retry,
        },
        QuicVersion::V2 => match bits {
            1 => LongHeaderType::Initial,
            2 => LongHeaderType::ZeroRtt,
            3 => LongHeaderType::Handshake,
            _ => LongHeaderType::Retry,
        },
    }
}

/// The version and the connection IDs of a long header packet: what a Version Negotiation packet
/// is made from.
#[derive(Debug, PartialEq, Eq)]
pub struct PacketVersion {
    /// The version field as it stands, known or not.
    pub version: u32,
    /// The Destination Connection ID, the source of a Version Negotiation packet.
    pub dcid: ConnectionId,
    /// The Source Connection ID, the destination of a Version Negotiation packet.
    pub scid: ConnectionId,
    /// The packet type, where the version is known.
    pub header_type: Option<LongHeaderType>,
}

impl Clone for PacketVersion {
    fn clone(&self) -> (r: PacketVersion)
        ensures
            r@ == self@,
    {
        PacketVersion {
            version: self.version,
            dcid: self.dcid.clone(),
            scid: self.scid.clone(),
            header_type: self.header_type,
        }
    }
}

/// What a [`PacketVersion`] says.
#[verifier::ext_equal]
pub struct PacketVersionView {
    /// The version field.
    pub version: u32,
    /// The Destination Connection ID.
    pub dcid: Seq<u8>,
    /// The Source Connection ID.
    pub scid: Seq<u8>,
    /// The packet type, where the version is known.
    pub header_type: Option<LongHeaderType>,
}

impl View for PacketVersion {
    type V = PacketVersionView;

    open spec fn view(&self) -> PacketVersionView {
        PacketVersionView {
            version: self.version,
            dcid: self.dcid@,
            scid: self.scid@,
            header_type: self.header_type,
        }
    }
}

impl PacketVersion {
    /// Returns whether this is an Initial packet; false where the version is not known.
    pub fn is_initial(&self) -> (r: bool)
        ensures
            r == (self@.header_type == Some(LongHeaderType::Initial)),
    {
        match self.header_type {
            Some(LongHeaderType::Initial) => true,
            _ => false,
        }
    }
}

/// What the long header packet `s` says of its version and its connection IDs.
///
/// There is nothing to say of a short header packet, a Version Negotiation packet (version 0), a
/// packet that ends within its connection IDs, connection IDs that are empty or longer than 20
/// bytes, and a datagram below [`MIN_INITIAL_DATAGRAM_SIZE`] with a version that is not known.
pub open spec fn version_info(s: Seq<u8>) -> Option<PacketVersionView> {
    if s.len() < 7 || s[0] < 0x80 || crate::packet::version_of(s) == 0 {
        None
    } else {
        let version = crate::packet::version_of(s) as u32;
        match crate::packet::cids_end(s) {
            None => None,
            Some(end) => {
                let dcid_len = s[5] as int;
                let scid_len = s[6 + dcid_len] as int;
                if end > s.len() || !(0 < dcid_len <= NGTCP2_MAX_CIDLEN) || !(0 < scid_len
                    <= NGTCP2_MAX_CIDLEN) || (QuicVersion::of_wire(version) is None && s.len()
                    < MIN_INITIAL_DATAGRAM_SIZE) {
                    None
                } else {
                    Some(
                        PacketVersionView {
                            version,
                            dcid: s.subrange(6, 6 + dcid_len),
                            scid: s.subrange(7 + dcid_len, 7 + dcid_len + scid_len),
                            header_type: long_type(version, s[0]),
                        },
                    )
                }
            },
        }
    }
}

/// Reads the version and the connection IDs of a long header packet, of any version
/// (RFC 9000 Section 6).
///
/// Returns `None` for
///
/// - a short header packet, which has no version field;
/// - a Version Negotiation packet (version 0), which must not be answered;
/// - a packet that is too short for its connection IDs;
/// - a version that is not known in a datagram below [`MIN_INITIAL_DATAGRAM_SIZE`], which is to
///   be discarded (RFC 9000 Section 14.1);
/// - connection IDs of length 0 or above 20.
pub fn decode_packet_version(data: &[u8]) -> (r: Option<PacketVersion>)
    ensures
        match version_info(data@) {
            Some(info) => r matches Some(v) && v@ == info,
            None => r is None,
        },
{
    if data.len() < 7 || data[0] < 0x80 {
        return None;
    }
    proof {
        lemma_version_bytes(data@);
    }
    let version: u32 = ((data[1] as u32 * 256 + data[2] as u32) * 256 + data[3] as u32) * 256
        + data[4] as u32;
    if version == 0 {
        return None;
    }
    let dcid_len: usize = data[5] as usize;
    if data.len() <= 6 + dcid_len {
        return None;
    }
    let scid_len: usize = data[6 + dcid_len] as usize;
    if data.len() < 7 + dcid_len + scid_len {
        return None;
    }
    let known: bool = QuicVersion::from_u32(version).is_some();
    if dcid_len == 0 || scid_len == 0 || (!known && data.len() < MIN_INITIAL_DATAGRAM_SIZE) {
        return None;
    }
    let dcid: Option<ConnectionId> = ConnectionId::new(slice_subrange(data, 6, 6 + dcid_len));
    let scid: Option<ConnectionId> = ConnectionId::new(
        slice_subrange(data, 7 + dcid_len, 7 + dcid_len + scid_len),
    );
    match (dcid, scid) {
        (Some(dcid), Some(scid)) => Some(
            PacketVersion {
                version,
                dcid,
                scid,
                header_type: long_header_type(version, data[0]),
            },
        ),
        _ => None,
    }
}

/// The version and the connection IDs are read as they stand, known version or not: the first
/// connection ID is the Destination Connection ID (RFC 8999 Section 5.1).
///
/// A packet of an unknown version is read in a datagram of at least 1200 bytes
/// (RFC 9000 Section 14.1).
pub proof fn lemma_reads_version_and_ids(
    first: u8,
    version: (u8, u8, u8, u8),
    dcid: Seq<u8>,
    scid: Seq<u8>,
    rest: Seq<u8>,
)
    requires
        first >= 0x80,
        version != (0u8, 0u8, 0u8, 0u8),
        1 <= dcid.len() <= 20,
        1 <= scid.len() <= 20,
        version == (0u8, 0u8, 0u8, 1u8) || version == (0x6bu8, 0x33u8, 0x43u8, 0xcfu8) || 7
            + dcid.len() + scid.len() + rest.len() >= 1200,
    ensures
        ({
            let s = seq![first, version.0, version.1, version.2, version.3] + (seq![
                dcid.len() as u8,
            ] + dcid + seq![scid.len() as u8] + scid + rest);
            version_info(s) matches Some(info) && {
                &&& info.version == version.0 * 0x100_0000 + version.1 * 0x1_0000 + version.2
                    * 0x100 + version.3
                &&& info.dcid == dcid
                &&& info.scid == scid
                &&& info.header_type == long_type(info.version, first)
            }
        }),
{
    let body = seq![dcid.len() as u8] + dcid + seq![scid.len() as u8] + scid + rest;
    let s = seq![first, version.0, version.1, version.2, version.3] + body;
    assert(s.skip(5) =~= body);
    crate::packet::lemma_header_fields(s, dcid, scid, rest);
    lemma_version_bytes(s);
}

/// [`decode_packet_version`] returns the version and the connection IDs of every long header packet
/// with connection IDs of 1 to 20 bytes, and swaps nothing.
pub proof fn lemma_decoded_version(
    first: u8,
    version: (u8, u8, u8, u8),
    dcid: Seq<u8>,
    scid: Seq<u8>,
    rest: Seq<u8>,
    data: &[u8],
    r: Option<PacketVersion>,
)
    requires
        first >= 0x80,
        version != (0u8, 0u8, 0u8, 0u8),
        1 <= dcid.len() <= 20,
        1 <= scid.len() <= 20,
        data@ == seq![first, version.0, version.1, version.2, version.3] + (seq![dcid.len() as u8]
            + dcid + seq![scid.len() as u8] + scid + rest),
        version == (0u8, 0u8, 0u8, 1u8) || version == (0x6bu8, 0x33u8, 0x43u8, 0xcfu8)
            || data@.len() >= 1200,
        call_ensures(decode_packet_version, (data,), r),
    ensures
        r matches Some(v) && v.dcid@ == dcid && v.scid@ == scid && v.version == version.0
            * 0x100_0000 + version.1 * 0x1_0000 + version.2 * 0x100 + version.3,
{
    lemma_reads_version_and_ids(first, version, dcid, scid, rest);
}

/// What is read stands in the packet: its bytes start with the form bit, the version and both
/// connection IDs, each behind its length.
///
/// So nothing is read of a short header packet, of version 0, of connection IDs that are empty,
/// longer than 20 bytes or cut off, and of an unknown version in less than 1200 bytes.
pub proof fn lemma_version_info_stands_in_packet(s: Seq<u8>)
    ensures
        version_info(s) matches Some(info) ==> {
            let d = info.dcid.len() as int;
            let c = info.scid.len() as int;
            &&& s.len() >= 7 + d + c
            &&& s[0] >= 0x80
            &&& s[1] * 0x100_0000 + s[2] * 0x1_0000 + s[3] * 0x100 + s[4] == info.version
            &&& info.version != 0
            &&& s[5] == d && 1 <= d <= 20
            &&& s.subrange(6, 6 + d) == info.dcid
            &&& s[6 + d] == c && 1 <= c <= 20
            &&& s.subrange(7 + d, 7 + d + c) == info.scid
            &&& info.version == 1 || info.version == 0x6b3343cf || s.len() >= 1200
        },
{
    if s.len() >= 5 {
        lemma_version_bytes(s);
    }
}

/// The two type bits mean Initial, 0-RTT, Handshake and Retry, in this order from 0 in QUIC v1
/// (RFC 9000 Section 17.2), and one further in QUIC v2 (RFC 9369 Section 3.2). In any other version
/// they mean nothing.
pub proof fn lemma_type_bits(version: u32, first: u8)
    ensures
        ({
            let bits = (first / 16) % 4;
            let from_initial = if version == 1 {
                bits as int
            } else {
                (bits + 3) % 4
            };
            match long_type(version, first) {
                None => version != 1 && version != 0x6b3343cf,
                Some(t) => {
                    &&& version == 1 || version == 0x6b3343cf
                    &&& t == LongHeaderType::Initial <==> from_initial == 0
                    &&& t == LongHeaderType::ZeroRtt <==> from_initial == 1
                    &&& t == LongHeaderType::Handshake <==> from_initial == 2
                    &&& t == LongHeaderType::Retry <==> from_initial == 3
                },
            }
        }),
{
}

/// A version that is read is never 0, and a packet type is only told where the version is known.
pub proof fn lemma_version_info_sound(s: Seq<u8>)
    ensures
        version_info(s) matches Some(info) ==> {
            &&& info.version != 0
            &&& info.header_type is Some ==> QuicVersion::of_wire(info.version) is Some
            &&& 0 < info.dcid.len() <= NGTCP2_MAX_CIDLEN
            &&& 0 < info.scid.len() <= NGTCP2_MAX_CIDLEN
        },
{
    if s.len() >= 5 {
        lemma_version_bytes(s);
    }
}

/// The values of `versions` on the wire, one after the other.
pub open spec fn version_list(versions: Seq<QuicVersion>) -> Seq<u8>
    decreases versions.len(),
{
    if versions.len() == 0 {
        Seq::empty()
    } else {
        version_list(versions.drop_last()) + crate::bytes::be_bytes(
            versions.last().wire() as nat,
            4,
        )
    }
}

/// The Version Negotiation packet (RFC 9000 Section 17.2.1): the connection IDs of the client's
/// packet change places, the version is 0, and the supported versions follow. The seven bits
/// behind the header form bit are those of `unused`.
pub open spec fn negotiation_packet(
    unused: u8,
    client_scid: Seq<u8>,
    client_dcid: Seq<u8>,
    versions: Seq<QuicVersion>,
) -> Seq<u8> {
    seq![(0x80 + unused % 0x80) as u8, 0, 0, 0, 0, client_scid.len() as u8] + client_scid
        + seq![client_dcid.len() as u8] + client_dcid + version_list(versions)
}

/// Four bytes are written for each version.
proof fn lemma_version_list_len(versions: Seq<QuicVersion>)
    ensures
        version_list(versions).len() == 4 * versions.len(),
    decreases versions.len(),
{
    if versions.len() > 0 {
        lemma_version_list_len(versions.drop_last());
        lemma_be_bytes_len(versions.last().wire() as nat, 4);
    }
}

/// A Version Negotiation packet is never answered with another one.
pub proof fn lemma_negotiation_not_renegotiated(
    unused: u8,
    client_scid: Seq<u8>,
    client_dcid: Seq<u8>,
    versions: Seq<QuicVersion>,
)
    requires
        client_scid.len() <= NGTCP2_MAX_CIDLEN,
        client_dcid.len() <= NGTCP2_MAX_CIDLEN,
    ensures
        version_info(negotiation_packet(unused, client_scid, client_dcid, versions)) is None,
{
    let s = negotiation_packet(unused, client_scid, client_dcid, versions);
    lemma_version_bytes(s);
}

/// A Version Negotiation packet is read with the connection IDs in the places that the client
/// expects, and stands alone in its datagram.
pub proof fn lemma_negotiation_fields(
    unused: u8,
    client_scid: Seq<u8>,
    client_dcid: Seq<u8>,
    versions: Seq<QuicVersion>,
)
    requires
        client_scid.len() <= NGTCP2_MAX_CIDLEN,
        client_dcid.len() <= NGTCP2_MAX_CIDLEN,
    ensures
        ({
            let s = negotiation_packet(unused, client_scid, client_dcid, versions);
            let mid = 6 + client_scid.len() as int;
            let end = mid + 1 + client_dcid.len();
            &&& s[0] >= 0x80
            &&& crate::packet::version_of(s) == 0
            &&& crate::packet::cids_end(s) == Some(end as nat)
            &&& s.subrange(6, mid) == client_scid
            &&& s.subrange(mid + 1, end) == client_dcid
            &&& s.skip(end) == version_list(versions)
            &&& crate::packet::len_of(s) == Some(s.len())
        }),
{
    let s = negotiation_packet(unused, client_scid, client_dcid, versions);
    let mid = 6 + client_scid.len() as int;
    let end = mid + 1 + client_dcid.len();
    lemma_version_bytes(s);
    assert(s.subrange(6, mid) =~= client_scid);
    assert(s.subrange(mid + 1, end) =~= client_dcid);
    assert(s.skip(end) =~= version_list(versions));
}

/// The versions stand at the end of a Version Negotiation packet, in their order and in four bytes each:
/// 00000001 for QUIC v1 and 6b3343cf for QUIC v2.
pub proof fn lemma_negotiation_lists_versions(
    unused: u8,
    client_scid: Seq<u8>,
    client_dcid: Seq<u8>,
    versions: Seq<QuicVersion>,
    i: int,
)
    requires
        client_scid.len() <= 20,
        client_dcid.len() <= 20,
        0 <= i < versions.len(),
    ensures
        ({
            let s = negotiation_packet(unused, client_scid, client_dcid, versions);
            let at = 7 + client_scid.len() + client_dcid.len() + 4 * i;
            &&& s.len() == 7 + client_scid.len() + client_dcid.len() + 4 * versions.len()
            &&& s.subrange(at, at + 4) == (match versions[i] {
                QuicVersion::V1 => seq![0u8, 0u8, 0u8, 1u8],
                QuicVersion::V2 => seq![0x6bu8, 0x33u8, 0x43u8, 0xcfu8],
            })
        }),
{
    let s = negotiation_packet(unused, client_scid, client_dcid, versions);
    let head = 7 + client_scid.len() + client_dcid.len();
    lemma_version_list_len(versions);
    lemma_version_list_at(versions, i);
    assert(s.skip(head as int) =~= version_list(versions));
    assert(s.subrange(head + 4 * i, head + 4 * i + 4) =~= version_list(versions).subrange(
        4 * i,
        4 * i + 4,
    ));
}

/// Where a version stands in the list.
proof fn lemma_version_list_at(versions: Seq<QuicVersion>, i: int)
    requires
        0 <= i < versions.len(),
    ensures
        version_list(versions).len() == 4 * versions.len(),
        version_list(versions).subrange(4 * i, 4 * i + 4) == (match versions[i] {
            QuicVersion::V1 => seq![0u8, 0u8, 0u8, 1u8],
            QuicVersion::V2 => seq![0x6bu8, 0x33u8, 0x43u8, 0xcfu8],
        }),
    decreases versions.len(),
{
    let before = versions.drop_last();
    lemma_version_list_len(versions);
    lemma_version_list_len(before);
    let list = version_list(versions);
    if i < before.len() {
        lemma_version_list_at(before, i);
        assert(list.subrange(4 * i, 4 * i + 4) =~= version_list(before).subrange(4 * i, 4 * i + 4));
    } else {
        let value = versions.last().wire() as nat;
        reveal_with_fuel(crate::bytes::be_bytes, 5);
        assert(crate::bytes::be_bytes(1, 4) =~= seq![0u8, 0u8, 0u8, 1u8]);
        assert(crate::bytes::be_bytes(0x6b3343cf, 4) =~= seq![0x6bu8, 0x33u8, 0x43u8, 0xcfu8]);
        assert(list.subrange(4 * i, 4 * i + 4) =~= crate::bytes::be_bytes(value, 4));
    }
}

/// The answer to a packet goes back to its sender: its Destination Connection ID is the Source
/// Connection ID of the packet, and the other way round, each behind its length.
pub proof fn lemma_negotiation_answers(
    unused: u8,
    s: Seq<u8>,
    versions: Seq<QuicVersion>,
)
    requires
        version_info(s) is Some,
    ensures
        ({
            let asked = version_info(s)->Some_0;
            let answer = negotiation_packet(unused, asked.scid, asked.dcid, versions);
            let d = s[5] as int;
            let c = s[6 + d] as int;
            &&& answer[0] >= 0x80
            &&& answer[0] % 128 == unused % 128
            &&& answer[1] == 0 && answer[2] == 0 && answer[3] == 0 && answer[4] == 0
            &&& answer[5] == c
            &&& answer.subrange(6, 6 + c) == s.subrange(7 + d, 7 + d + c)
            &&& answer[6 + c] == d
            &&& answer.subrange(7 + c, 7 + c + d) == s.subrange(6, 6 + d)
        }),
{
    lemma_version_info_stands_in_packet(s);
    let asked = version_info(s)->Some_0;
    let answer = negotiation_packet(unused, asked.scid, asked.dcid, versions);
    let c = asked.scid.len() as int;
    let d = asked.dcid.len() as int;
    assert(answer.subrange(6, 6 + c) =~= asked.scid);
    assert(answer.subrange(7 + c, 7 + c + d) =~= asked.dcid);
}

/// The bytes of a Version Negotiation packet whose unused bits are those of `unused`.
pub fn version_negotiation_packet(
    unused: u8,
    client_scid: &ConnectionId,
    client_dcid: &ConnectionId,
    supported_versions: &[QuicVersion],
) -> (r: Vec<u8>)
    ensures
        r@ == negotiation_packet(unused, client_scid@, client_dcid@, supported_versions@),
        r@.len() == 7 + client_scid@.len() + client_dcid@.len() + 4 * supported_versions@.len(),
{
    let mut out: Vec<u8> = Vec::new();
    out.push(0x80 + unused % 0x80);
    out.push(0);
    out.push(0);
    out.push(0);
    out.push(0);
    out.push(client_scid.len() as u8);
    out.extend_from_slice(client_scid.as_bytes());
    out.push(client_dcid.len() as u8);
    out.extend_from_slice(client_dcid.as_bytes());
    let ghost head = out@;
    assert(head =~= seq![
        (0x80 + unused % 0x80) as u8,
        0,
        0,
        0,
        0,
        client_scid@.len() as u8,
    ] + client_scid@ + seq![client_dcid@.len() as u8] + client_dcid@);
    let mut i: usize = 0;
    while i < supported_versions.len()
        invariant
            i <= supported_versions@.len(),
            out@ == head + version_list(supported_versions@.take(i as int)),
        decreases supported_versions@.len() - i,
    {
        let value: u32 = supported_versions[i].as_u32();
        out.push((value / 0x100_0000) as u8);
        out.push((value / 0x1_0000 % 0x100) as u8);
        out.push((value / 0x100 % 0x100) as u8);
        out.push((value % 0x100) as u8);
        proof {
            let done = supported_versions@.take(i + 1);
            assert(done.drop_last() =~= supported_versions@.take(i as int));
            reveal_with_fuel(crate::bytes::be_bytes, 5);
            assert(crate::bytes::be_bytes(value as nat, 4) =~= seq![
                (value / 0x100_0000) as u8,
                (value / 0x1_0000 % 0x100) as u8,
                (value / 0x100 % 0x100) as u8,
                (value % 0x100) as u8,
            ]);
            assert(out@ =~= head + version_list(done));
        }
        i = i + 1;
    }
    proof {
        assert(supported_versions@.take(i as int) =~= supported_versions@);
        lemma_version_list_len(supported_versions@);
        assert(out@ =~= negotiation_packet(
            unused,
            client_scid@,
            client_dcid@,
            supported_versions@,
        ));
    }
    out
}

/// Writes a Version Negotiation packet to the start of `buf` and returns its length
/// (RFC 9000 Sections 6 and 17.2.1).
///
/// `client_scid` and `client_dcid` are the connection IDs of the client's packet as they are;
/// they change places in the packet that is written. The unused bits of the first byte are random.
///
/// It is an error if `supported_versions` is empty or if `buf` is too small.
pub fn write_version_negotiation(
    buf: &mut [u8],
    client_scid: &ConnectionId,
    client_dcid: &ConnectionId,
    supported_versions: &[QuicVersion],
) -> (r: Result<usize, Error>)
    ensures
        final(buf)@.len() == old(buf)@.len(),
        match r {
            Ok(len) => {
                &&& supported_versions@.len() > 0
                &&& len == 7 + client_scid@.len() + client_dcid@.len() + 4
                    * supported_versions@.len()
                &&& len <= old(buf)@.len()
                &&& exists|unused: u8|
                    final(buf)@ == #[trigger] negotiation_packet(
                        unused,
                        client_scid@,
                        client_dcid@,
                        supported_versions@,
                    ) + old(buf)@.skip(len as int)
            },
            Err(e) => {
                &&& final(buf)@ == old(buf)@
                &&& if supported_versions@.len() == 0 {
                    e.is_invalid_argument("supported_versions must not be empty"@)
                } else {
                    &&& old(buf)@.len() < 7 + client_scid@.len() + client_dcid@.len() + 4
                        * supported_versions@.len()
                    &&& e matches Error::Ngtcp2(m, code) && code == NGTCP2_ERR_NOBUF && m@
                        == "ERR_NOBUF"@
                }
            },
        },
{
    if supported_versions.len() == 0 {
        return Err(Error::invalid_argument("supported_versions must not be empty"));
    }
    let unused: u8 = match random_bytes(1) {
        Some(bytes) => bytes[0],
        None => {
            return Err(Error::internal("failed to generate random bits"));
        },
    };
    let packet: Vec<u8> = version_negotiation_packet(
        unused,
        client_scid,
        client_dcid,
        supported_versions,
    );
    if packet.len() > buf.len() {
        return Err(Error::Ngtcp2("ERR_NOBUF".to_owned(), NGTCP2_ERR_NOBUF));
    }
    put(buf, packet.as_slice());
    assert(buf@ =~= negotiation_packet(unused, client_scid@, client_dcid@, supported_versions@)
        + old(buf)@.skip(packet@.len() as int));
    Ok(packet.len())
}

} // verus!
