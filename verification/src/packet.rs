//! Splitting a written buffer into QUIC packets.
//!
//! One write may return several coalesced packets (RFC 9000 Section 12.2), such as a Handshake
//! packet followed by a 1-RTT packet when a connection is closed before its handshake is
//! confirmed. A peer that has discarded the Handshake keys drops the whole datagram, so each
//! packet is better sent on its own.

use vstd::prelude::*;
use vstd::slice::slice_subrange;

use crate::types::QuicVersion;
use crate::varint;
use crate::version::{long_header_type, type_in_version, LongHeaderType};

verus! {

/// The version field of a long header packet.
pub open spec fn version_of(s: Seq<u8>) -> nat {
    crate::bytes::be_value(s.subrange(1, 5))
}

/// The position behind both connection IDs of a long header packet.
///
/// first byte, version (4), DCID length (1), DCID, SCID length (1), SCID
pub open spec fn cids_end(s: Seq<u8>) -> Option<nat> {
    if s.len() <= 5 || s.len() <= 6 + s[5] {
        None
    } else {
        Some((7 + s[5] + s[6 + s[5]]) as nat)
    }
}

/// The position behind a variable-length integer at `pos` and behind the bytes that it counts.
pub open spec fn counted_end(s: Seq<u8>, pos: nat) -> Option<nat> {
    if pos > s.len() {
        None
    } else {
        match varint::decoding(s.skip(pos as int)) {
            Some((count, len)) => Some(pos + len + count),
            None => None,
        }
    }
}

/// The packet type bits of a long header. What they mean depends on the version.
pub open spec fn type_bits(first: u8) -> nat {
    (first as nat / 16) % 4
}

/// The type of the long header packet `s`. One whose version is not known is read like one of QUIC v1.
pub open spec fn type_of(s: Seq<u8>) -> LongHeaderType {
    match crate::version::long_type(version_of(s) as u32, s[0]) {
        Some(header_type) => header_type,
        None => crate::version::header_type_of(QuicVersion::V1, type_bits(s[0])),
    }
}

/// The length of the QUIC packet that `s` starts with.
///
/// Short header, Version Negotiation and Retry packets have no length field and fill the rest of
/// the datagram. Any other packet carries a length, behind a token if it is an Initial; one that
/// reaches beyond `s` is no length.
pub open spec fn len_of(s: Seq<u8>) -> Option<nat> {
    if s.len() == 0 {
        None
    } else if s[0] < 0x80 {
        Some(s.len())
    } else if s.len() < 5 {
        None
    } else if version_of(s) == 0 {
        Some(s.len())
    } else {
        match cids_end(s) {
            None => None,
            Some(cids) => if type_of(s) == LongHeaderType::Retry {
                Some(s.len())
            } else {
                let start = if type_of(s) == LongHeaderType::Initial {
                    counted_end(s, cids)
                } else {
                    Some(cids)
                };
                match start {
                    None => None,
                    Some(pos) => match counted_end(s, pos) {
                        Some(end) => if end <= s.len() {
                            Some(end)
                        } else {
                            None
                        },
                        None => None,
                    },
                }
            },
        }
    }
}

/// The packets that the datagram `s` is made of, in order.
///
/// Where no length can be found, the rest is one packet.
pub open spec fn packets_of(s: Seq<u8>) -> Seq<Seq<u8>>
    decreases s.len(),
{
    if s.len() == 0 {
        Seq::empty()
    } else {
        match len_of(s) {
            None => seq![s],
            Some(len) => {
                proof {
                    lemma_len_range(s);
                }
                seq![s.take(len as int)] + packets_of(s.skip(len as int))
            },
        }
    }
}

/// All packets one after the other.
pub open spec fn joined(packets: Seq<Seq<u8>>) -> Seq<u8>
    decreases packets.len(),
{
    if packets.len() == 0 {
        Seq::empty()
    } else {
        packets[0] + joined(packets.drop_first())
    }
}

/// A packet is never empty and never reaches beyond the datagram.
pub proof fn lemma_len_range(s: Seq<u8>)
    ensures
        len_of(s) matches Some(len) ==> 0 < len <= s.len(),
{
}

/// Splitting loses and adds nothing: the packets joined are the datagram.
pub proof fn lemma_split_joins(s: Seq<u8>)
    ensures
        joined(packets_of(s)) == s,
    decreases s.len(),
{
    if s.len() > 0 {
        match len_of(s) {
            None => {
                assert(seq![s].drop_first() =~= Seq::<Seq<u8>>::empty());
                assert(joined(seq![s]) =~= s + joined(Seq::empty()));
            },
            Some(len) => {
                lemma_len_range(s);
                let rest = packets_of(s.skip(len as int));
                lemma_split_joins(s.skip(len as int));
                assert(packets_of(s).drop_first() =~= rest);
                assert(s =~= s.take(len as int) + s.skip(len as int));
            },
        }
    }
}

/// No packet of a datagram is empty.
pub proof fn lemma_split_nonempty(s: Seq<u8>)
    ensures
        forall|i: int| 0 <= i < packets_of(s).len() ==> (#[trigger] packets_of(s)[i]).len() > 0,
    decreases s.len(),
{
    if s.len() > 0 {
        lemma_len_range(s);
        if let Some(len) = len_of(s) {
            let rest = packets_of(s.skip(len as int));
            lemma_split_nonempty(s.skip(len as int));
            assert forall|i: int| 0 <= i < packets_of(s).len() implies (
            #[trigger] packets_of(s)[i]).len() > 0 by {
                if i > 0 {
                    assert(packets_of(s)[i] == rest[i - 1]);
                }
            }
        }
    }
}

/// A complete variable-length integer is read alike whatever bytes follow it.
proof fn lemma_counted_end_extends(s: Seq<u8>, tail: Seq<u8>, pos: nat)
    requires
        counted_end(s, pos) is Some,
    ensures
        counted_end(s + tail, pos) == counted_end(s, pos),
{
    let a = s.skip(pos as int);
    let b = (s + tail).skip(pos as int);
    assert(b =~= a + tail);
    let len = varint::announced_len(a[0]);
    assert(a.take(len as int) =~= b.take(len as int));
}

/// A packet that carries its length is cut off at its end, whatever follows it in the datagram.
///
/// This is what separates a Handshake packet, of QUIC v1 or v2, from the 1-RTT packet behind it.
pub proof fn lemma_split_after_length(packet: Seq<u8>, tail: Seq<u8>)
    requires
        len_of(packet) == Some(packet.len()),
        packet[0] >= 0x80,
        version_of(packet) != 0,
        type_of(packet) != LongHeaderType::Retry,
    ensures
        packets_of(packet + tail) == seq![packet] + packets_of(tail),
{
    let s = packet + tail;
    assert(s.subrange(1, 5) =~= packet.subrange(1, 5));
    assert(cids_end(s) == cids_end(packet));
    let cids = cids_end(packet)->0;
    if type_of(packet) == LongHeaderType::Initial {
        lemma_counted_end_extends(packet, tail, cids);
        lemma_counted_end_extends(packet, tail, counted_end(packet, cids)->0);
    } else {
        lemma_counted_end_extends(packet, tail, cids);
    }
    assert(len_of(s) == Some(packet.len()));
    assert(s.take(packet.len() as int) =~= packet);
    assert(s.skip(packet.len() as int) =~= tail);
}

/// A short header packet fills the rest of the datagram.
pub proof fn lemma_split_short_header(s: Seq<u8>)
    requires
        s.len() > 0,
        s[0] < 0x80,
    ensures
        packets_of(s) == seq![s],
{
    assert(s.take(s.len() as int) =~= s);
    assert(s.skip(s.len() as int) =~= Seq::<u8>::empty());
    assert(packets_of(s) =~= seq![s] + packets_of(Seq::empty()));
}

/// The version and the connection IDs of a long header packet are where its first bytes say, whatever
/// follows them.
pub proof fn lemma_header_fields(s: Seq<u8>, dcid: Seq<u8>, scid: Seq<u8>, rest: Seq<u8>)
    requires
        s.len() >= 5,
        dcid.len() <= 255,
        scid.len() <= 255,
        s.skip(5) == seq![dcid.len() as u8] + dcid + seq![scid.len() as u8] + scid + rest,
    ensures
        s[5] == dcid.len(),
        s[6 + dcid.len() as int] == scid.len(),
        s.subrange(6, 6 + dcid.len() as int) == dcid,
        s.subrange(7 + dcid.len() as int, 7 + dcid.len() as int + scid.len()) == scid,
        cids_end(s) == Some(7 + dcid.len() + scid.len()),
        s.skip(7 + dcid.len() as int + scid.len()) == rest,
        s.len() == 7 + dcid.len() + scid.len() + rest.len(),
{
    let d = dcid.len() as int;
    let c = scid.len() as int;
    let t = s.skip(5);
    assert(t.len() == 2 + d + c + rest.len());
    assert(t[0] == dcid.len());
    assert(t[1 + d] == scid.len());
    assert(forall|i: int| 0 <= i < t.len() ==> t[i] == s[5 + i]);
    assert(s.subrange(6, 6 + d) =~= dcid) by {
        assert forall|i: int| 0 <= i < d implies s[6 + i] == dcid[i] by {
            assert(t[1 + i] == dcid[i]);
        }
    }
    assert(s.subrange(7 + d, 7 + d + c) =~= scid) by {
        assert forall|i: int| 0 <= i < c implies s[7 + d + i] == scid[i] by {
            assert(t[2 + d + i] == scid[i]);
        }
    }
    assert(s.skip(7 + d + c) =~= rest) by {
        assert forall|i: int| 0 <= i < rest.len() implies s[7 + d + c + i] == rest[i] by {
            assert(t[2 + d + c + i] == rest[i]);
        }
    }
}

/// A field and the bytes that it counts end where those bytes end.
proof fn lemma_counted_end_at(s: Seq<u8>, pos: nat, field: Seq<u8>, counted: Seq<u8>, rest: Seq<u8>)
    requires
        pos <= s.len(),
        s.skip(pos as int) == field + counted + rest,
        varint::decoding(field) == Some((counted.len(), field.len())),
    ensures
        counted_end(s, pos) == Some(pos + field.len() + counted.len()),
        s.len() == pos + field.len() + counted.len() + rest.len(),
        s.skip((pos + field.len() + counted.len()) as int) == rest,
{
    let a = s.skip(pos as int);
    let len = varint::announced_len(field[0]);
    assert(a[0] == field[0]);
    assert(a.take(len as int) =~= field.take(len as int));
    assert(s.skip((pos + field.len() + counted.len()) as int) =~= rest) by {
        assert forall|i: int| 0 <= i < rest.len() implies s[pos + field.len() + counted.len() + i]
            == rest[i] by {
            assert(a[field.len() + counted.len() + i] == rest[i]);
        }
    }
}

/// A Handshake or 0-RTT packet ends where its Length field says, and what follows it in the datagram
/// is split on its own.
///
/// Its type bits are 1 or 2, and 2 or 3 in QUIC v2 (RFC 9369 Section 3.2). The field stands behind
/// the connection IDs (RFC 9000 Sections 17.2.3 and 17.2.4).
pub proof fn lemma_split_handshake(
    first: u8,
    version: (u8, u8, u8, u8),
    dcid: Seq<u8>,
    scid: Seq<u8>,
    field: Seq<u8>,
    payload: Seq<u8>,
    tail: Seq<u8>,
)
    requires
        first >= 0x80,
        version != (0u8, 0u8, 0u8, 0u8),
        if version == (0x6bu8, 0x33u8, 0x43u8, 0xcfu8) {
            (first / 16) % 4 == 2 || (first / 16) % 4 == 3
        } else {
            (first / 16) % 4 == 1 || (first / 16) % 4 == 2
        },
        dcid.len() <= 255,
        scid.len() <= 255,
        varint::decoding(field) == Some((payload.len(), field.len())),
    ensures
        ({
            let packet = seq![first, version.0, version.1, version.2, version.3]
                + (seq![dcid.len() as u8] + dcid + seq![scid.len() as u8] + scid + (field
                + payload));
            packets_of(packet + tail) == seq![packet] + packets_of(tail)
        }),
{
    let rest = field + payload;
    let body = seq![dcid.len() as u8] + dcid + seq![scid.len() as u8] + scid + rest;
    let packet = seq![first, version.0, version.1, version.2, version.3] + body;
    assert(packet.skip(5) =~= body);
    lemma_header_fields(packet, dcid, scid, rest);
    lemma_version_bytes(packet);
    let cids = 7 + dcid.len() + scid.len();
    assert(packet.skip(cids as int) =~= field + payload + Seq::<u8>::empty());
    lemma_counted_end_at(packet, cids, field, payload, Seq::empty());
    lemma_split_after_length(packet, tail);
}

/// An Initial packet ends where its Length field says, and what follows it in the datagram is split
/// on its own.
///
/// Its type bits are 0, and 1 in QUIC v2 (RFC 9369 Section 3.2). The field stands behind the token,
/// which has a length of its own (RFC 9000 Section 17.2.2).
pub proof fn lemma_split_initial(
    first: u8,
    version: (u8, u8, u8, u8),
    dcid: Seq<u8>,
    scid: Seq<u8>,
    token_field: Seq<u8>,
    token: Seq<u8>,
    field: Seq<u8>,
    payload: Seq<u8>,
    tail: Seq<u8>,
)
    requires
        first >= 0x80,
        version != (0u8, 0u8, 0u8, 0u8),
        (first / 16) % 4 == (if version == (0x6bu8, 0x33u8, 0x43u8, 0xcfu8) {
            1int
        } else {
            0int
        }),
        dcid.len() <= 255,
        scid.len() <= 255,
        varint::decoding(token_field) == Some((token.len(), token_field.len())),
        varint::decoding(field) == Some((payload.len(), field.len())),
    ensures
        ({
            let packet = seq![first, version.0, version.1, version.2, version.3]
                + (seq![dcid.len() as u8] + dcid + seq![scid.len() as u8] + scid + (token_field
                + token + (field + payload)));
            packets_of(packet + tail) == seq![packet] + packets_of(tail)
        }),
{
    let last = field + payload;
    let rest = token_field + token + last;
    let body = seq![dcid.len() as u8] + dcid + seq![scid.len() as u8] + scid + rest;
    let packet = seq![first, version.0, version.1, version.2, version.3] + body;
    assert(packet.skip(5) =~= body);
    lemma_header_fields(packet, dcid, scid, rest);
    lemma_version_bytes(packet);
    let cids = 7 + dcid.len() + scid.len();
    lemma_counted_end_at(packet, cids, token_field, token, last);
    let pos = cids + token_field.len() + token.len();
    assert(packet.skip(pos as int) =~= field + payload + Seq::<u8>::empty());
    lemma_counted_end_at(packet, pos, field, payload, Seq::empty());
    lemma_split_after_length(packet, tail);
}

/// A packet whose length cannot be found, or that has none, is one packet with all that follows it.
proof fn lemma_split_whole(s: Seq<u8>)
    requires
        s.len() > 0,
        len_of(s) is None || len_of(s) == Some(s.len()),
    ensures
        packets_of(s) == seq![s],
{
    assert(s.take(s.len() as int) =~= s);
    assert(s.skip(s.len() as int) =~= Seq::<u8>::empty());
    if len_of(s) is Some {
        assert(packets_of(s) =~= seq![s] + packets_of(Seq::empty()));
    }
}

/// A Retry packet and a Version Negotiation packet reach to the end of the datagram, whatever they
/// hold (RFC 9000 Sections 17.2.1 and 17.2.5).
///
/// The type bits of Retry are 3, and 0 in QUIC v2.
pub proof fn lemma_split_alone(s: Seq<u8>)
    requires
        s.len() >= 5,
        s[0] >= 0x80,
        (s[1] == 0 && s[2] == 0 && s[3] == 0 && s[4] == 0) || (s[0] / 16) % 4 == (if s[1] == 0x6b
            && s[2] == 0x33 && s[3] == 0x43 && s[4] == 0xcf {
            0int
        } else {
            3int
        }),
    ensures
        packets_of(s) == seq![s],
{
    lemma_version_bytes(s);
    lemma_split_whole(s);
}

/// A Handshake or 0-RTT packet that is cut off before its end is not split any further.
pub proof fn lemma_split_cut_off(
    first: u8,
    version: (u8, u8, u8, u8),
    dcid: Seq<u8>,
    scid: Seq<u8>,
    field: Seq<u8>,
    announced: nat,
    payload: Seq<u8>,
)
    requires
        first >= 0x80,
        version != (0u8, 0u8, 0u8, 0u8),
        if version == (0x6bu8, 0x33u8, 0x43u8, 0xcfu8) {
            (first / 16) % 4 == 2 || (first / 16) % 4 == 3
        } else {
            (first / 16) % 4 == 1 || (first / 16) % 4 == 2
        },
        dcid.len() <= 255,
        scid.len() <= 255,
        varint::decoding(field) == Some((announced, field.len())),
        payload.len() < announced,
    ensures
        ({
            let s = seq![first, version.0, version.1, version.2, version.3] + (seq![
                dcid.len() as u8,
            ] + dcid + seq![scid.len() as u8] + scid + (field + payload));
            packets_of(s) == seq![s]
        }),
{
    let rest = field + payload;
    let body = seq![dcid.len() as u8] + dcid + seq![scid.len() as u8] + scid + rest;
    let s = seq![first, version.0, version.1, version.2, version.3] + body;
    assert(s.skip(5) =~= body);
    lemma_header_fields(s, dcid, scid, rest);
    lemma_version_bytes(s);
    let cids = 7 + dcid.len() + scid.len();
    let a = s.skip(cids as int);
    let len = varint::announced_len(field[0]);
    assert(a[0] == field[0]);
    assert(a.take(len as int) =~= field.take(len as int));
    assert(counted_end(s, cids) == Some(cids + field.len() + announced));
    lemma_split_whole(s);
}

/// A packet whose Length field is not complete is not split any further, and neither is an Initial whose
/// token or the length of it is not.
pub proof fn lemma_split_incomplete_length(
    first: u8,
    version: (u8, u8, u8, u8),
    dcid: Seq<u8>,
    scid: Seq<u8>,
    rest: Seq<u8>,
)
    requires
        first >= 0x80,
        dcid.len() <= 255,
        scid.len() <= 255,
        if (first / 16) % 4 == (if version == (0x6bu8, 0x33u8, 0x43u8, 0xcfu8) {
            1int
        } else {
            0int
        }) {
            match varint::decoding(rest) {
                None => true,
                Some((count, used)) => used + count > rest.len() || varint::decoding(
                    rest.skip((used + count) as int),
                ) is None,
            }
        } else {
            varint::decoding(rest) is None
        },
    ensures
        ({
            let s = seq![first, version.0, version.1, version.2, version.3] + (seq![
                dcid.len() as u8,
            ] + dcid + seq![scid.len() as u8] + scid + rest);
            packets_of(s) == seq![s]
        }),
{
    let body = seq![dcid.len() as u8] + dcid + seq![scid.len() as u8] + scid + rest;
    let s = seq![first, version.0, version.1, version.2, version.3] + body;
    assert(s.skip(5) =~= body);
    lemma_header_fields(s, dcid, scid, rest);
    lemma_version_bytes(s);
    let cids = 7 + dcid.len() + scid.len();
    if let Some((count, used)) = varint::decoding(rest) {
        let end = cids + used + count;
        if end <= s.len() {
            assert(s.skip(end as int) =~= rest.skip((used + count) as int));
        }
    }
    lemma_split_whole(s);
}

/// A long header packet that ends within its version, or within its connection IDs, is not split any
/// further.
pub proof fn lemma_split_incomplete(s: Seq<u8>)
    requires
        s.len() > 0,
        s[0] >= 0x80,
        s.len() <= 5 || s.len() <= 6 + s[5] || s.len() < 7 + s[5] + s[6 + s[5]],
    ensures
        packets_of(s) == seq![s],
{
    lemma_split_whole(s);
}

/// Splits `buf` into the QUIC packets that are coalesced in it.
///
/// A short header packet reaches to the end of the datagram. A long header packet gives its
/// length, in a place that depends on its version and type; a version that is not known is read
/// like QUIC v1. Where no length can be found the rest is returned as one packet: it is safer to send
/// it as it is and let the peer judge than to drop it.
pub fn split_packets(buf: &[u8]) -> (packets: Vec<&[u8]>)
    ensures
        packets@.len() == packets_of(buf@).len(),
        forall|i: int| 0 <= i < packets@.len() ==> (#[trigger] packets@[i])@ == packets_of(buf@)[i],
{
    let mut packets: Vec<&[u8]> = Vec::new();
    let mut rest: &[u8] = buf;
    while rest.len() > 0
        invariant
            packets@.len() + packets_of(rest@).len() == packets_of(buf@).len(),
            forall|i: int|
                0 <= i < packets@.len() ==> (#[trigger] packets@[i])@ == packets_of(buf@)[i],
            forall|i: int|
                0 <= i < packets_of(rest@).len() ==> #[trigger] packets_of(rest@)[i] == packets_of(
                    buf@,
                )[packets@.len() + i],
        decreases rest@.len(),
    {
        let ghost before = rest@;
        let ghost done = packets@;
        match packet_len(rest) {
            None => {
                assert(packets_of(before)[0] == before);
                packets.push(rest);
                rest = slice_subrange(rest, rest.len(), rest.len());
            },
            Some(len) => {
                proof {
                    lemma_len_range(before);
                    assert(packets_of(before)[0] == before.take(len as int));
                    assert forall|i: int| 0 <= i < packets_of(before.skip(len as int)).len() implies
                        #[trigger] packets_of(before.skip(len as int))[i] == packets_of(buf@)[
                    done.len() + 1 + i] by {
                        assert(packets_of(before)[i + 1] == packets_of(before.skip(len as int))[i]);
                    }
                }
                packets.push(slice_subrange(rest, 0, len));
                rest = slice_subrange(rest, len, rest.len());
                assert(rest@ =~= before.skip(len as int));
            },
        }
    }
    packets
}

/// Reads the variable-length integer at `pos` and returns the position behind the bytes that it
/// counts, or `None` if that position is not within the range of `usize`.
fn skip_counted(buf: &[u8], pos: usize) -> (r: Option<usize>)
    ensures
        match counted_end(buf@, pos as nat) {
            Some(end) => r == (if end <= usize::MAX {
                Some(end as usize)
            } else {
                None
            }),
            None => r is None,
        },
{
    if pos > buf.len() {
        return None;
    }
    let rest: &[u8] = slice_subrange(buf, pos, buf.len());
    assert(rest@ =~= buf@.skip(pos as int));
    match varint::decode(rest) {
        None => None,
        Some((count, len)) => {
            let limit: u64 = (usize::MAX - pos - len) as u64;
            if count > limit {
                None
            } else {
                Some(pos + len + count as usize)
            }
        },
    }
}

/// Returns the length of the QUIC packet that `buf` starts with, or `None` if it cannot be found.
pub fn packet_len(buf: &[u8]) -> (r: Option<usize>)
    ensures
        match len_of(buf@) {
            Some(len) => r == Some(len as usize) && len <= buf@.len(),
            None => r is None,
        },
{
    if buf.len() == 0 {
        return None;
    }
    let first: u8 = buf[0];
    if first < 0x80 {
        return Some(buf.len());
    }
    if buf.len() < 5 {
        return None;
    }
    proof {
        lemma_version_bytes(buf@);
    }
    let version: u32 = ((buf[1] as u32 * 256 + buf[2] as u32) * 256 + buf[3] as u32) * 256
        + buf[4] as u32;
    if version == 0 {
        return Some(buf.len());
    }
    if buf.len() <= 5 {
        return None;
    }
    let scid_pos: usize = 6 + buf[5] as usize;
    if buf.len() <= scid_pos {
        return None;
    }
    let mut pos: usize = scid_pos + 1 + buf[scid_pos] as usize;
    let header_type: LongHeaderType = match long_header_type(version, first) {
        Some(known) => known,
        None => type_in_version(QuicVersion::V1, first),
    };
    if header_type == LongHeaderType::Retry {
        return Some(buf.len());
    }
    if header_type == LongHeaderType::Initial {
        match skip_counted(buf, pos) {
            None => {
                return None;
            },
            Some(end) => {
                pos = end;
            },
        }
    }
    match skip_counted(buf, pos) {
        None => None,
        Some(end) => if end <= buf.len() {
            Some(end)
        } else {
            None
        },
    }
}

/// The version field in terms of its four bytes.
pub proof fn lemma_version_bytes(s: Seq<u8>)
    requires
        s.len() >= 5,
    ensures
        version_of(s) == ((s[1] as nat * 256 + s[2] as nat) * 256 + s[3] as nat) * 256 + s[4] as nat,
{
    let v = s.subrange(1, 5);
    let v3 = v.drop_last();
    let v2 = v3.drop_last();
    let v1 = v2.drop_last();
    assert(v1.drop_last() =~= Seq::<u8>::empty());
    assert(crate::bytes::be_value(v1.drop_last()) == 0);
    assert(crate::bytes::be_value(v1) == s[1] as nat);
    assert(crate::bytes::be_value(v2) == s[1] as nat * 256 + s[2] as nat);
    assert(crate::bytes::be_value(v3) == (s[1] as nat * 256 + s[2] as nat) * 256 + s[3] as nat);
}

} // verus!
