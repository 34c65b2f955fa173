//! What the functions of this library promise together, from what goes in to what comes out.

use vstd::prelude::*;

use crate::addr::{
    cid_from_raw, cid_to_raw, path_info_from_raw, sockaddr_from_raw, sockaddr_to_raw, RawCid,
    RawSockaddr,
};
use crate::alpn::{alpn_select_callback, encode_alpn};
use crate::calls::{after_read, raw_path, AfterRead, RawPath};
use crate::config::{RawTransportParams, RemoteTransportParams, TransportParams};
use crate::conn::{CloseInfo, CloseKind, Connection, ConnectionError, SessionTicket, WriteOutcome};
use crate::crypto::{NameStep, TlsSession};
use crate::driver::{ClientCommand, ClientMode, Refusal, ServerCommand};
use crate::error::{ConnectionErrorKind, Error};
use crate::inflight::{InFlight, InFlightStreamData};
use crate::packet::split_packets;
use crate::reset::{stateless_reset_packet, StatelessResetSecret, StatelessResetToken};
use crate::retry::{
    accept_initial, verify_retry_token, AcceptedInitial, AddressValidationToken,
    AddressValidationTokenKind, RetryPacket, RetrySecret, RetryTokenInput, TokenCheck, TokenVerdict,
};
use crate::settings::{RawSettings, Settings};
use crate::setup::{ConnectionPlan, SetupStep};
use crate::stats::{ConnInfo, ConnStats};
use crate::types::{
    ConnectionId, Duration, PacketInfo, PathInfo, QuicVersion, SocketAddr, StreamDirection, StreamId,
    StreamType,
};
use crate::version::{decode_packet_version, version_negotiation_packet, PacketVersion};

verus! {

/// A datagram that starts with a Handshake or 0-RTT packet is split behind that packet, and the rest as
/// if it came alone.
pub proof fn lemma_split_behind_handshake(
    first: u8,
    version: (u8, u8, u8, u8),
    dcid: Seq<u8>,
    scid: Seq<u8>,
    field: Seq<u8>,
    payload: Seq<u8>,
    rest: &[u8],
    datagram: &[u8],
    of_rest: Vec<&[u8]>,
    all: Vec<&[u8]>,
)
    requires
        first >= 0x80,
        version != (0u8, 0u8, 0u8, 0u8),
        if version == (0x6bu8, 0x33u8, 0x43u8, 0xcfu8) {
            (first / 16) % 4 == 2 || (first / 16) % 4 == 3
        } else {
            (first / 16) % 4 == 1 || (first / 16) % 4 == 2
        },
        dcid.len() <= 255,
        scid.len() <= 255,
        crate::varint::decoding(field) == Some((payload.len(), field.len())),
        datagram@ == seq![first, version.0, version.1, version.2, version.3] + (seq![
            dcid.len() as u8,
        ] + dcid + seq![scid.len() as u8] + scid + (field + payload)) + rest@,
        call_ensures(split_packets, (rest,), of_rest),
        call_ensures(split_packets, (datagram,), all),
    ensures
        all@.len() == of_rest@.len() + 1,
        all@[0]@ + rest@ == datagram@,
        forall|i: int| 0 <= i < of_rest@.len() ==> #[trigger] all@[i + 1]@ == of_rest@[i]@,
{
    crate::packet::lemma_split_handshake(first, version, dcid, scid, field, payload, rest@);
    let packet = seq![first, version.0, version.1, version.2, version.3] + (seq![dcid.len() as u8]
        + dcid + seq![scid.len() as u8] + scid + (field + payload));
    let parts = crate::packet::packets_of(datagram@);
    assert(parts == seq![packet] + crate::packet::packets_of(rest@));
    assert(all@[0]@ == parts[0]);
    assert forall|i: int| 0 <= i < of_rest@.len() implies #[trigger] all@[i + 1]@
        == of_rest@[i]@ by {
        assert(all@[i + 1]@ == parts[i + 1]);
        assert(of_rest@[i]@ == crate::packet::packets_of(rest@)[i]);
    }
}

/// The packets of a datagram, one behind the other, are the datagram, and none of them is empty.
pub proof fn lemma_split_keeps_all(datagram: &[u8], all: Vec<&[u8]>)
    requires
        call_ensures(split_packets, (datagram,), all),
    ensures
        crate::packet::joined(Seq::new(all@.len(), |i: int| all@[i]@)) == datagram@,
        forall|i: int| 0 <= i < all@.len() ==> (#[trigger] all@[i])@.len() > 0,
{
    let parts = Seq::new(all@.len(), |i: int| all@[i]@);
    assert(parts =~= crate::packet::packets_of(datagram@));
    crate::packet::lemma_split_joins(datagram@);
    crate::packet::lemma_split_nonempty(datagram@);
    assert forall|i: int| 0 <= i < all@.len() implies (#[trigger] all@[i])@.len() > 0 by {
        assert(all@[i]@ == crate::packet::packets_of(datagram@)[i]);
    }
}

/// Every Initial of QUIC v1 or v2 in a datagram of at least 1200 bytes is accepted, and returned with
/// the version, the connection IDs and the token that stand in it.
pub proof fn lemma_initial_is_accepted(
    first: u8,
    version: (u8, u8, u8, u8),
    dcid: Seq<u8>,
    scid: Seq<u8>,
    token_field: Seq<u8>,
    token: Seq<u8>,
    length_field: Seq<u8>,
    payload: Seq<u8>,
    data: &[u8],
    r: Option<AcceptedInitial>,
)
    requires
        first >= 0x80,
        (version == (0u8, 0u8, 0u8, 1u8) && (first / 16) % 4 == 0) || (version == (
            0x6bu8,
            0x33u8,
            0x43u8,
            0xcfu8,
        ) && (first / 16) % 4 == 1),
        dcid.len() <= 20,
        scid.len() <= 20,
        token.len() == 0 ==> dcid.len() >= 8,
        crate::varint::decoding(token_field) == Some((token.len(), token_field.len())),
        crate::varint::decoding(length_field) is Some,
        data@ == seq![first, version.0, version.1, version.2, version.3] + (seq![dcid.len() as u8]
            + dcid + seq![scid.len() as u8] + scid + (token_field + token + (length_field
            + payload))),
        data@.len() >= 1200,
        call_ensures(accept_initial, (data,), r),
    ensures
        r matches Some(initial) && {
            &&& initial.version == version.0 * 0x100_0000 + version.1 * 0x1_0000 + version.2 * 0x100
                + version.3
            &&& initial.dcid@ == dcid
            &&& initial.scid@ == scid
            &&& initial.token@ == token
        },
{
    crate::retry::lemma_initial_complete(
        first,
        version,
        dcid,
        scid,
        token_field,
        token,
        length_field,
        payload,
    );
}

/// Nothing is accepted but an Initial of QUIC v1 or v2 in a datagram of at least 1200 bytes, and what is
/// returned stands in it.
pub proof fn lemma_accepted_is_initial(data: &[u8], r: Option<AcceptedInitial>)
    requires
        call_ensures(accept_initial, (data,), r),
    ensures
        r matches Some(initial) ==> {
            let d = initial.dcid@.len() as int;
            let c = initial.scid@.len() as int;
            &&& data@.len() >= 1200 && data@[0] >= 0x80
            &&& (initial.version == 1 && (data@[0] / 16) % 4 == 0) || (initial.version == 0x6b3343cf
                && (data@[0] / 16) % 4 == 1)
            &&& d <= 20 && c <= 20 && (initial.token@.len() == 0 ==> d >= 8)
            &&& data@.subrange(6, 6 + d) == initial.dcid@
            &&& data@.subrange(7 + d, 7 + d + c) == initial.scid@
        },
{
    crate::retry::lemma_initial_stands_in_datagram(data@);
}

/// The answer to a packet of a version that is not supported carries the connection IDs of the packet in
/// changed places, so that the client takes it for one (RFC 9000 Section 6).
pub proof fn lemma_version_negotiation_reaches_client(
    data: &[u8],
    asked: PacketVersion,
    unused: u8,
    versions: &[QuicVersion],
    answer: Vec<u8>,
)
    requires
        call_ensures(decode_packet_version, (data,), Some(asked)),
        call_ensures(
            version_negotiation_packet,
            (unused, &asked.scid, &asked.dcid, versions),
            answer,
        ),
    ensures
        ({
            let d = data@[5] as int;
            let c = data@[6 + d] as int;
            &&& answer@[0] >= 0x80
            &&& answer@.subrange(1, 5) == seq![0u8, 0u8, 0u8, 0u8]
            &&& answer@[5] == c
            &&& answer@.subrange(6, 6 + c) == data@.subrange(7 + d, 7 + d + c)
            &&& answer@[6 + c] == d
            &&& answer@.subrange(7 + c, 7 + c + d) == data@.subrange(6, 6 + d)
            &&& answer@.len() == 7 + c + d + 4 * versions@.len()
        }),
{
    crate::version::lemma_version_info_stands_in_packet(data@);
    crate::version::lemma_negotiation_answers(unused, data@, versions@);
    assert(answer@.subrange(1, 5) =~= seq![0u8, 0u8, 0u8, 0u8]);
}

/// A variable-length integer is read back as it was written, whatever follows it.
pub proof fn lemma_varint_reads_back(n: u64, tail: Seq<u8>, buf: &[u8], r: Option<(u64, usize)>)
    requires
        n <= 0x3fff_ffff_ffff_ffff,
        buf@ == crate::varint::encoding(n as nat) + tail,
        call_ensures(crate::varint::decode, (buf,), r),
    ensures
        r matches Some((value, len)) && value == n && len + tail.len() == buf@.len(),
{
    crate::varint::lemma_roundtrip(n as nat, tail);
}

/// Of the protocols that the client offers, a server selects the one that it lists first, and none
/// exactly if they have none in common (RFC 7301 Section 3.2).
pub proof fn lemma_protocol_is_selected(
    server: &[&[u8]],
    client: &[&[u8]],
    server_list: Vec<u8>,
    client_list: Vec<u8>,
    server_wire: &[u8],
    client_wire: &[u8],
    r: Option<(usize, usize)>,
)
    requires
        forall|i: int| 0 <= i < server@.len() ==> (#[trigger] server@[i])@.len() < 256,
        forall|i: int| 0 <= i < client@.len() ==> (#[trigger] client@[i])@.len() < 256,
        call_ensures(encode_alpn, (server,), server_list),
        call_ensures(encode_alpn, (client,), client_list),
        server_wire@ == server_list@,
        client_wire@ == client_list@,
        call_ensures(alpn_select_callback, (server_wire, client_wire), r),
    ensures
        match r {
            Some((start, len)) => {
                &&& start + len <= client_wire@.len()
                &&& exists|k: int, j: int|
                    {
                        &&& 0 <= k < server@.len() && 0 <= j < client@.len()
                        &&& (#[trigger] server@[k])@ == (#[trigger] client@[j])@
                        &&& server@[k]@ == client_wire@.subrange(start as int, start + len)
                        &&& forall|m: int, n: int|
                            0 <= m < k && 0 <= n < client@.len() ==> (#[trigger] server@[m])@ != (
                            #[trigger] client@[n])@
                    }
            },
            None => forall|m: int, n: int|
                0 <= m < server@.len() && 0 <= n < client@.len() ==> (#[trigger] server@[m])@ != (
                #[trigger] client@[n])@,
        },
{
    let ours = crate::alpn::contents(server@);
    let theirs = crate::alpn::contents(client@);
    assert(forall|i: int| 0 <= i < ours.len() ==> #[trigger] ours[i] == server@[i]@);
    assert(forall|i: int| 0 <= i < theirs.len() ==> #[trigger] theirs[i] == client@[i]@);
    crate::alpn::lemma_wire_roundtrip(ours);
    crate::alpn::lemma_wire_roundtrip(theirs);
    crate::alpn::lemma_selection_prefers_server(ours, theirs);
    match crate::alpn::selection(ours, theirs) {
        Some(i) => {
            crate::alpn::lemma_protocol_stands_at_its_start(client_wire@, i);
            let k = choose|k: int|
                0 <= k < ours.len() && #[trigger] ours[k] == theirs[i as int] && forall|m: int|
                    0 <= m < k ==> !theirs.contains(#[trigger] ours[m]);
            assert(server@[k]@ == client@[i as int]@);
            assert forall|m: int, n: int| 0 <= m < k && 0 <= n < client@.len() implies (
            #[trigger] server@[m])@ != (#[trigger] client@[n])@ by {
                assert(!theirs.contains(ours[m]));
                assert(theirs[n] == client@[n]@);
            }
        },
        None => {
            assert forall|m: int, n: int| 0 <= m < server@.len() && 0 <= n < client@.len() implies (
            #[trigger] server@[m])@ != (#[trigger] client@[n])@ by {
                assert(!theirs.contains(ours[m]));
                assert(theirs[n] == client@[n]@);
            }
        },
    }
}

/// A socket address is read back from the form that the engine takes, but for flow information and
/// scope.
pub proof fn lemma_address_reads_back(addr: SocketAddr, raw: RawSockaddr, read: Option<SocketAddr>)
    requires
        call_ensures(sockaddr_to_raw, (&addr,), raw),
        call_ensures(sockaddr_from_raw, (&raw,), read),
    ensures
        match (addr, read) {
            (
                SocketAddr::V4 { ip4, port },
                Some(SocketAddr::V4 { ip4: ip, port: p }),
            ) => ip == ip4 && p == port,
            (
                SocketAddr::V6 { ip6, port, flowinfo, scope_id },
                Some(SocketAddr::V6 { ip6: ip, port: p, flowinfo: f, scope_id: s }),
            ) => ip == ip6 && p == port && f == 0 && s == 0,
            _ => false,
        },
{
    crate::addr::lemma_sockaddr_roundtrip(raw, addr, true);
}

/// A path is read back from the form that the engine takes, each end in its place.
pub proof fn lemma_path_reads_back(path: PathInfo, raw: RawPath, read: Option<PathInfo>)
    requires
        call_ensures(raw_path, (&path,), raw),
        call_ensures(path_info_from_raw, (Some(raw.local), Some(raw.remote)), read),
    ensures
        read matches Some(p) && {
            &&& path.local is V4 ==> p.local == path.local
            &&& path.remote is V4 ==> p.remote == path.remote
            &&& p.local is V4 == path.local is V4
            &&& p.remote is V4 == path.remote is V4
        },
{
    crate::calls::lemma_path_roundtrip(raw, path);
}

/// A connection ID is read back from the form that the engine takes.
pub proof fn lemma_connection_id_reads_back(
    cid: ConnectionId,
    raw: RawCid,
    read: Option<ConnectionId>,
)
    requires
        cid@.len() <= 20,
        call_ensures(cid_to_raw, (&cid,), raw),
        call_ensures(cid_from_raw, (&raw,), read),
    ensures
        read matches Some(c) && c@ == cid@,
{
}

/// What one side announces is what its peer reads.
pub proof fn lemma_announced_params_are_read(
    params: TransportParams,
    raw: RawTransportParams,
    read: RemoteTransportParams,
)
    requires
        call_ensures(TransportParams::to_raw, (&params,), raw),
        call_ensures(RemoteTransportParams::from_raw, (&raw,), read),
    ensures
        read.initial_max_data == params.initial_max_data,
        read.initial_max_stream_data_bidi_local == params.initial_max_stream_data_bidi_local,
        read.initial_max_stream_data_bidi_remote == params.initial_max_stream_data_bidi_remote,
        read.initial_max_stream_data_uni == params.initial_max_stream_data_uni,
        read.initial_max_streams_bidi == params.initial_max_streams_bidi,
        read.initial_max_streams_uni == params.initial_max_streams_uni,
        read.max_idle_timeout.nanos == params.max_idle_timeout,
        read.max_udp_payload_size == params.max_udp_payload_size,
        read.active_connection_id_limit == params.active_connection_id_limit,
        read.ack_delay_exponent == params.ack_delay_exponent,
        read.max_ack_delay.nanos == params.max_ack_delay,
        read.max_datagram_frame_size == params.max_datagram_frame_size,
        read.disable_active_migration == params.disable_active_migration,
        read.grease_quic_bit == params.grease_quic_bit,
        read.reset_stream_at == params.reset_stream_at,
        read.retry_scid is Some == params.retry_scid is Some,
        read.retry_scid matches Some(cid) ==> (params.retry_scid matches Some(sent) && cid@
            == sent@),
{
}

/// A client takes every DNS name for its server, and starts with the server name indication; a server
/// takes none.
pub proof fn lemma_server_name_is_taken(
    session: TlsSession,
    name: &str,
    is_ip_address: bool,
    r: Result<NameStep, Error>,
)
    requires
        call_ensures(TlsSession::set_server_name, (&session, name, is_ip_address), r),
    ensures
        r is Ok <==> {
            &&& !session.is_server
            &&& name@.len() > 0
            &&& !is_ip_address
            &&& forall|i: int| 0 <= i < name@.len() ==> name@[i] != '*' && name@[i] != '\0'
            &&& vstd::utf8::encode_utf8(name@).len() <= 255
        },
        r matches Ok(step) ==> step == NameStep::SetIndication,
        r matches Err(e) ==> e is InvalidArgument,
{
}

/// What follows an error is decided by the error: packets are written only while the connection goes
/// on, and a CONNECTION_CLOSE only for an error that the peer has to know of.
pub proof fn lemma_read_errors_decide(e: Error, kind: ConnectionErrorKind, after: AfterRead)
    requires
        call_ensures(Error::classify_connection_error, (&e,), kind),
        call_ensures(after_read, (Some(&e),), after),
    ensures
        after == AfterRead::Write <==> kind == ConnectionErrorKind::Ignore,
        after is Close <==> kind == ConnectionErrorKind::TransportClose,
        after == AfterRead::Nothing <==> kind == ConnectionErrorKind::SilentDrop || kind
            == ConnectionErrorKind::Terminal || kind == ConnectionErrorKind::Internal,
        after matches AfterRead::Close { code } ==> (e matches Error::Ngtcp2(_, c) && code == Some(
            c,
        )),
{
}

/// A datagram is written only to a peer that takes them, and then its packet and whether the datagram
/// is in it are reported as the engine has them.
pub proof fn lemma_datagram_result(
    params: Option<RemoteTransportParams>,
    accepted: i32,
    outcome: WriteOutcome,
    r: Result<(usize, bool, Option<PathInfo>, PacketInfo), Error>,
)
    requires
        call_ensures(Connection::write_datagram, (&params, accepted, outcome), r),
    ensures
        r is Ok <==> (params matches Some(p) && p.max_datagram_frame_size > 0) && outcome.rv >= 0,
        r matches Ok((len, taken, path, info)) ==> {
            &&& len == outcome.rv
            &&& taken <==> accepted != 0
            &&& path is Some ==> outcome.rv > 0
            &&& info.ecn == outcome.ecn
        },
        r matches Err(e) ==> (e matches Error::Ngtcp2(_, code) && (code == -204 || code
            == outcome.rv as i32)),
{
}

/// A packet is reported with its length, its ECN mark and its path, or the engine's error is.
pub proof fn lemma_packet_result(
    outcome: WriteOutcome,
    r: Result<(usize, PacketInfo, Option<PathInfo>), Error>,
)
    requires
        call_ensures(Connection::write_pkt, (outcome,), r),
    ensures
        r is Ok <==> outcome.rv >= 0,
        r matches Ok((len, info, path)) ==> len == outcome.rv && info.ecn == outcome.ecn && (
        path is Some ==> len > 0),
        r matches Err(e) ==> (e matches Error::Ngtcp2(_, code) && code == outcome.rv as i32),
{
}

/// Why a connection ended is told as the engine keeps it: an error of the application is told apart from
/// one of the transport, and a timeout is none.
pub proof fn lemma_end_of_connection(info: CloseInfo, r: ConnectionError)
    requires
        call_ensures(Connection::get_connection_error, (Some(info),), r),
    ensures
        r.error_code == info.error_code,
        r.is_application <==> info.kind == CloseKind::Application,
        r.has_error <==> info.kind != CloseKind::IdleClose,
        r.is_application ==> r.has_error,
        info.reason is None ==> r.reason@.len() == 0,
{
}

/// A ticket gives back the session and the transport parameters that it was made of.
pub proof fn lemma_ticket_gives_back(
    session: Vec<u8>,
    params: Vec<u8>,
    ticket: SessionTicket,
    held_session: &[u8],
    held_params: &[u8],
)
    requires
        call_ensures(SessionTicket::new, (session, params), ticket),
        call_ensures(SessionTicket::session, (&ticket,), held_session),
        call_ensures(SessionTicket::transport_params, (&ticket,), held_params),
    ensures
        held_session@ == session@,
        held_params@ == params@,
{
}

/// A Retry token proves the address only if the engine found it valid, and then gives the original
/// Destination Connection ID. Each other verdict is an invalid argument.
pub proof fn lemma_retry_token_result(
    rv: i32,
    unreadable: i32,
    not_proven: i32,
    verdict: TokenVerdict,
    odcid: RawCid,
    r: Result<ConnectionId, Error>,
)
    requires
        call_ensures(TokenVerdict::from_result, (rv, unreadable, not_proven), verdict),
        call_ensures(verify_retry_token, (verdict, &odcid), r),
    ensures
        r is Ok <==> rv == 0 && odcid.datalen <= 20,
        r matches Ok(cid) ==> cid@ == odcid.data@.take(odcid.datalen as int),
        r matches Err(e) ==> e is InvalidArgument,
{
}

/// A Stateless Reset packet ends with its token and looks like a short header packet.
pub proof fn lemma_reset_ends_with_token(
    random: Vec<u8>,
    token: StatelessResetToken,
    packet: Vec<u8>,
)
    requires
        random@.len() > 0,
        call_ensures(stateless_reset_packet, (random, &token), packet),
    ensures
        packet@.len() == random@.len() + 16,
        packet@.skip(random@.len() as int) == token@,
        0x40 <= packet@[0] < 0x80,
        packet@[0] % 64 == random@[0] % 64,
        packet@.subrange(1, random@.len() as int) == random@.skip(1),
{
    crate::reset::lemma_reset_packet_carries_token(random@, token@);
}

/// The lowest two bits of a stream ID tell who opened the stream and whether data flows both ways
/// (RFC 9000 Section 2.1).
pub proof fn lemma_stream_id_bits(
    stream_id: StreamId,
    direction: StreamDirection,
    stream_type: StreamType,
)
    requires
        stream_id >= 0,
        call_ensures(StreamDirection::from_stream_id, (stream_id,), direction),
        call_ensures(StreamType::from_stream_id, (stream_id,), stream_type),
    ensures
        direction == StreamDirection::ServerInitiated <==> stream_id % 2 == 1,
        stream_type == StreamType::Unidirectional <==> stream_id % 4 >= 2,
{
    crate::types::lemma_stream_id_kinds(stream_id);
}

/// A version is found again from its value on the wire.
pub proof fn lemma_version_reads_back(version: QuicVersion, value: u32, read: Option<QuicVersion>)
    requires
        call_ensures(QuicVersion::as_u32, (version,), value),
        call_ensures(QuicVersion::from_u32, (value,), read),
    ensures
        read == Some(version),
        value == (match version {
            QuicVersion::V1 => 1u32,
            QuicVersion::V2 => 0x6b3343cfu32,
        }),
{
}

/// A client is started exactly if its command line has an address, a certificate and a payload, in this
/// order, besides the flags, no unknown flag, and not both 0-RTT data and migration.
pub proof fn lemma_client_command(args: &[String], r: Result<ClientCommand, Refusal>)
    requires
        call_ensures(crate::driver::client, (args,), r),
    ensures
        ({
            let all = crate::text::texts(args@);
            let plain = all.filter(
                |arg: Seq<char>| !(arg.len() >= 2 && arg[0] == '-' && arg[1] == '-'),
            );
            let early = all.contains("--early-data"@);
            let moves = all.contains("--migration"@) || all.contains("--migrate"@);
            match r {
                Ok(command) => {
                    &&& plain.len() == 3
                    &&& command.server_addr@ == plain[0]
                    &&& command.ca_cert_path@ == plain[1]
                    &&& command.payload@ == vstd::utf8::encode_utf8(plain[2])
                    &&& !(early && moves)
                    &&& command.mode == ClientMode::EarlyData <==> early
                    &&& command.mode == ClientMode::Migrate <==> moves
                },
                Err(_) => {
                    ||| plain.len() != 3
                    ||| early && moves
                    ||| exists|i: int|
                        0 <= i < all.len() && crate::driver::is_flag(#[trigger] all[i]) && all[i]
                            != "--early-data"@ && all[i] != "--migration"@ && all[i]
                            != "--migrate"@
                },
            }
        }),
{
    crate::driver::lemma_command_line(crate::text::texts(args@));
}

/// A server is started exactly if its command line has a certificate and a key, in this order, besides
/// the flags, and no unknown flag; both flags may stand together.
pub proof fn lemma_server_command(args: &[String], r: Result<ServerCommand, Refusal>)
    requires
        call_ensures(crate::driver::server, (args,), r),
    ensures
        ({
            let all = crate::text::texts(args@);
            let plain = all.filter(
                |arg: Seq<char>| !(arg.len() >= 2 && arg[0] == '-' && arg[1] == '-'),
            );
            match r {
                Ok(command) => {
                    &&& plain.len() == 2
                    &&& command.cert_path@ == plain[0]
                    &&& command.key_path@ == plain[1]
                    &&& command.options.early_data <==> all.contains("--early-data"@)
                    &&& command.options.migration <==> all.contains("--migration"@) || all.contains(
                        "--migrate"@,
                    )
                },
                Err(_) => {
                    ||| plain.len() != 2
                    ||| exists|i: int|
                        0 <= i < all.len() && crate::driver::is_flag(#[trigger] all[i]) && all[i]
                            != "--early-data"@ && all[i] != "--migration"@ && all[i]
                            != "--migrate"@
                },
            }
        }),
{
    crate::driver::lemma_command_line(crate::text::texts(args@));
}

/// What a client hands to the engine is what it was given: both connection IDs, both ends of the path,
/// the version, the name of the server, the transport parameters and the settings.
pub proof fn lemma_client_plan(
    dcid: ConnectionId,
    scid: ConnectionId,
    local: SocketAddr,
    remote: SocketAddr,
    version: QuicVersion,
    name: &str,
    is_ip_address: bool,
    session: TlsSession,
    params: TransportParams,
    settings: Settings,
    plan: ConnectionPlan,
    step: SetupStep,
)
    requires
        call_ensures(
            Connection::client_new,
            (
                &dcid,
                &scid,
                local,
                remote,
                version,
                name,
                is_ip_address,
                &session,
                &params,
                &settings,
            ),
            Ok((plan, step)),
        ),
    ensures
        !plan.is_server && step == SetupStep::SetIndication,
        plan.early_params is None,
        plan.dcid.datalen == dcid@.len() && plan.dcid.data@.take(dcid@.len() as int) == dcid@,
        plan.scid.datalen == scid@.len() && plan.scid.data@.take(scid@.len() as int) == scid@,
        plan.local.address() == Some(crate::addr::without_scope(local)),
        plan.remote.address() == Some(crate::addr::without_scope(remote)),
        plan.version == (match version {
            QuicVersion::V1 => 1u32,
            QuicVersion::V2 => 0x6b3343cfu32,
        }),
        plan.server_name matches Some(held) && held@ == name@,
        plan.params.initial_max_data == params.initial_max_data,
        plan.params.max_idle_timeout == params.max_idle_timeout,
        plan.params.original_dcid_present == 0 <==> params.original_dcid is None,
        plan.settings.initial_ts == settings.initial_ts,
        plan.settings.max_tx_udp_payload_size == settings.max_tx_udp_payload_size,
        plan.keep_alive is Some <==> settings.keep_alive_timeout is Some,
        plan.stateless_reset_secret == settings.stateless_reset_secret,
        plan.accept_early_data == session.accept_early_data,
{
    crate::addr::lemma_sockaddr_roundtrip(plan.local, local, true);
    crate::addr::lemma_sockaddr_roundtrip(plan.remote, remote, true);
}

/// A client that resumes an earlier connection hands the same to the engine, and the transport
/// parameters of its ticket besides.
pub proof fn lemma_resuming_client_plan(
    dcid: ConnectionId,
    scid: ConnectionId,
    local: SocketAddr,
    remote: SocketAddr,
    version: QuicVersion,
    name: &str,
    is_ip_address: bool,
    session: TlsSession,
    params: TransportParams,
    settings: Settings,
    ticket: SessionTicket,
    early: &[u8],
    plan: ConnectionPlan,
    step: SetupStep,
)
    requires
        call_ensures(
            Connection::client_new_with_0rtt,
            (
                &dcid,
                &scid,
                local,
                remote,
                version,
                name,
                is_ip_address,
                &session,
                &params,
                &settings,
                &ticket,
            ),
            Ok((plan, step)),
        ),
        call_ensures(SessionTicket::transport_params, (&ticket,), early),
    ensures
        !plan.is_server && step == SetupStep::SetIndication,
        plan.early_params matches Some(held) && held@ == early@,
        plan.dcid.datalen == dcid@.len() && plan.dcid.data@.take(dcid@.len() as int) == dcid@,
        plan.scid.datalen == scid@.len() && plan.scid.data@.take(scid@.len() as int) == scid@,
        plan.local.address() == Some(crate::addr::without_scope(local)),
        plan.remote.address() == Some(crate::addr::without_scope(remote)),
        plan.version == (match version {
            QuicVersion::V1 => 1u32,
            QuicVersion::V2 => 0x6b3343cfu32,
        }),
        plan.server_name matches Some(held) && held@ == name@,
        plan.params.initial_max_data == params.initial_max_data,
        plan.params.max_idle_timeout == params.max_idle_timeout,
        plan.params.original_dcid_present == 0 <==> params.original_dcid is None,
        plan.settings.initial_ts == settings.initial_ts,
        plan.settings.max_tx_udp_payload_size == settings.max_tx_udp_payload_size,
        plan.keep_alive is Some <==> settings.keep_alive_timeout is Some,
        plan.stateless_reset_secret == settings.stateless_reset_secret,
        plan.accept_early_data == session.accept_early_data,
{
    crate::addr::lemma_sockaddr_roundtrip(plan.local, local, true);
    crate::addr::lemma_sockaddr_roundtrip(plan.remote, remote, true);
}

/// What a server hands to the engine is what it was given; it names no server.
pub proof fn lemma_server_plan(
    dcid: ConnectionId,
    scid: ConnectionId,
    local: SocketAddr,
    remote: SocketAddr,
    version: QuicVersion,
    session: TlsSession,
    params: TransportParams,
    settings: Settings,
    r: Result<(ConnectionPlan, SetupStep), Error>,
    plan: ConnectionPlan,
    step: SetupStep,
)
    requires
        call_ensures(
            Connection::server_new,
            (&dcid, &scid, local, remote, version, &session, &params, &settings),
            r,
        ),
        r == Ok::<(ConnectionPlan, SetupStep), Error>((plan, step)),
    ensures
        params.original_dcid is Some,
        plan.is_server && step == SetupStep::Create,
        plan.early_params is None,
        params.original_dcid matches Some(cid) ==> plan.params.original_dcid.data@.take(
            cid@.len() as int,
        ) == cid@,
        plan.dcid.datalen == dcid@.len() && plan.dcid.data@.take(dcid@.len() as int) == dcid@,
        plan.scid.datalen == scid@.len() && plan.scid.data@.take(scid@.len() as int) == scid@,
        plan.local.address() == Some(crate::addr::without_scope(local)),
        plan.remote.address() == Some(crate::addr::without_scope(remote)),
        plan.version == (match version {
            QuicVersion::V1 => 1u32,
            QuicVersion::V2 => 0x6b3343cfu32,
        }),
        plan.server_name is None,
        plan.params.initial_max_data == params.initial_max_data,
        plan.params.max_idle_timeout == params.max_idle_timeout,
        plan.params.original_dcid_present == 0 <==> params.original_dcid is None,
        plan.settings.initial_ts == settings.initial_ts,
        plan.settings.max_tx_udp_payload_size == settings.max_tx_udp_payload_size,
        plan.keep_alive is Some <==> settings.keep_alive_timeout is Some,
        plan.stateless_reset_secret == settings.stateless_reset_secret,
        plan.accept_early_data == session.accept_early_data,
{
    crate::addr::lemma_sockaddr_roundtrip(plan.local, local, true);
    crate::addr::lemma_sockaddr_roundtrip(plan.remote, remote, true);
}

/// The connection that was set up has nothing in it yet, keeps the session and the secret it was
/// planned with, and has tried early data exactly if it resumes and may.
pub proof fn lemma_new_connection(
    plan: ConnectionPlan,
    session: TlsSession,
    early_data: bool,
    conn: Connection,
)
    requires
        call_ensures(ConnectionPlan::connection, (plan, session, early_data), conn),
    ensures
        conn.tls_session == session,
        conn.user_data.stateless_reset_secret == plan.stateless_reset_secret,
        conn.user_data.early_data_attempted <==> plan.early_params is Some && early_data,
        conn.user_data.events@.len() == 0,
        conn.user_data.new_tokens@.len() == 0,
        conn.user_data.qlog_data@.len() == 0,
        conn.user_data.issued_cids@.len() == 0,
        conn.user_data.retired_cids@.len() == 0,
        forall|id: StreamId| !conn.user_data.in_flight().contains_key(id),
{
}

/// The engine takes the settings as they are, times in nanoseconds.
pub proof fn lemma_settings_reach_engine(settings: Settings, raw: RawSettings)
    requires
        call_ensures(Settings::to_raw, (&settings,), raw),
    ensures
        raw.initial_ts == settings.initial_ts,
        settings.initial_rtt.nanos < 0x1_0000_0000_0000_0000 ==> raw.initial_rtt
            == settings.initial_rtt.nanos,
        settings.handshake_timeout is None ==> raw.handshake_timeout == 0xffff_ffff_ffff_ffff,
        settings.handshake_timeout matches Some(t) ==> (t.nanos < 0x1_0000_0000_0000_0000
            ==> raw.handshake_timeout == t.nanos),
        raw.max_tx_udp_payload_size == settings.max_tx_udp_payload_size,
        raw.max_window == settings.max_window,
        raw.max_stream_window == settings.max_stream_window,
        raw.ack_thresh == settings.ack_threshold,
        raw.no_tx_udp_payload_size_shaping != 0 <==> settings.no_tx_udp_payload_size_shaping,
        raw.no_pmtud != 0 <==> settings.no_pmtud,
        raw.qlog_write == settings.qlog,
        raw.preferred_versions@.len() == settings.preferred_versions@.len(),
        raw.available_versions@.len() == settings.available_versions@.len(),
        settings.address_validation_token is None ==> raw.token@.len() == 0,
{
}

/// The token of the settings reaches the engine with its bytes and its kind.
pub proof fn lemma_token_reaches_engine(
    settings: Settings,
    token: AddressValidationToken,
    bytes: &[u8],
    kind: AddressValidationTokenKind,
    raw: RawSettings,
)
    requires
        settings.address_validation_token == Some(token),
        call_ensures(AddressValidationToken::as_bytes, (&token,), bytes),
        call_ensures(AddressValidationToken::kind, (&token,), kind),
        call_ensures(Settings::to_raw, (&settings,), raw),
    ensures
        raw.token@ == bytes@,
        raw.token_type == (match kind {
            AddressValidationTokenKind::Retry => 1u32,
            AddressValidationTokenKind::NewToken => 2u32,
        }),
{
}

/// A token of an Initial packet is told by its first byte, and holds all of its bytes.
pub proof fn lemma_token_of_packet(
    bytes: Vec<u8>,
    r: Option<AddressValidationToken>,
    token: AddressValidationToken,
    held: &[u8],
    kind: AddressValidationTokenKind,
)
    requires
        call_ensures(AddressValidationToken::from_packet, (bytes,), r),
        r == Some(token),
        call_ensures(AddressValidationToken::as_bytes, (&token,), held),
        call_ensures(AddressValidationToken::kind, (&token,), kind),
    ensures
        held@ == bytes@,
        bytes@.len() > 0,
        kind == AddressValidationTokenKind::Retry <==> bytes@[0] == 0xb7,
        kind == AddressValidationTokenKind::NewToken <==> bytes@[0] == 0x36,
{
}

/// Every number of the engine's statistics is reported as it is.
pub proof fn lemma_statistics_are_the_engines(info: ConnInfo, stats: ConnStats)
    requires
        call_ensures(ConnStats::from_raw, (&info,), stats),
    ensures
        stats.latest_rtt.nanos == info.latest_rtt,
        stats.min_rtt is None <==> info.min_rtt == 0xffff_ffff_ffff_ffff,
        stats.min_rtt matches Some(rtt) ==> rtt.nanos == info.min_rtt,
        stats.smoothed_rtt.nanos == info.smoothed_rtt,
        stats.rttvar.nanos == info.rttvar,
        stats.cwnd == info.cwnd,
        stats.ssthresh is None <==> info.ssthresh == 0xffff_ffff_ffff_ffff,
        stats.ssthresh matches Some(bytes) ==> bytes == info.ssthresh,
        stats.bytes_in_flight == info.bytes_in_flight,
        stats.packets_sent == info.pkt_sent,
        stats.bytes_sent == info.bytes_sent,
        stats.packets_received == info.pkt_recv,
        stats.bytes_received == info.bytes_recv,
        stats.packets_lost == info.pkt_lost,
        stats.bytes_lost == info.bytes_lost,
        stats.pings_received == info.ping_recv,
        stats.packets_discarded == info.pkt_discarded,
{
}

/// The parameters that only a server announces reach the engine as they are.
pub proof fn lemma_server_params_reach_engine(params: TransportParams, raw: RawTransportParams)
    requires
        call_ensures(TransportParams::to_raw, (&params,), raw),
    ensures
        raw.original_dcid_present != 0 <==> params.original_dcid is Some,
        params.original_dcid matches Some(cid) ==> raw.original_dcid.datalen == cid@.len()
            && raw.original_dcid.data@.take(cid@.len() as int) == cid@,
        raw.stateless_reset_token_present != 0 <==> params.stateless_reset_token is Some,
        params.stateless_reset_token matches Some(token) ==> raw.stateless_reset_token@ == token@,
        raw.preferred_addr is Some <==> params.preferred_addr is Some,
        params.preferred_addr matches Some(p) ==> (raw.preferred_addr matches Some(addr)
            && addr.ipv4 == p.ipv4 && addr.ipv6 == p.ipv6 && addr.cid.data@.take(
            p.cid@.len() as int,
        ) == p.cid@ && addr.stateless_reset_token@ == p.stateless_reset_token@),
{
}

/// A preferred address of one family is announced with its IP address and port, and leaves that of the
/// other family as it was.
pub proof fn lemma_preferred_address_is_announced(
    params: TransportParams,
    cid: ConnectionId,
    addr: SocketAddr,
    token: StatelessResetToken,
    r: TransportParams,
    raw: RawTransportParams,
)
    requires
        call_ensures(TransportParams::with_preferred_address, (params, &cid, addr, &token), r),
        call_ensures(TransportParams::to_raw, (&r,), raw),
    ensures
        raw.preferred_addr matches Some(now) && {
            let set = if addr is V4 {
                now.ipv4
            } else {
                now.ipv6
            };
            let kept = if addr is V4 {
                now.ipv6
            } else {
                now.ipv4
            };
            &&& set matches Some(a) && a.address() == Some(crate::addr::without_scope(addr))
            &&& kept == (match params.preferred_addr {
                None => None,
                Some(p) => if addr is V4 {
                    p.ipv6
                } else {
                    p.ipv4
                },
            })
            &&& now.cid.data@.take(cid@.len() as int) == cid@
            &&& now.stateless_reset_token@ == token@
        },
{
    let now = r@.preferred_addr->Some_0;
    crate::config::lemma_preferred_address_roundtrip(
        now,
        params@.preferred_addr,
        cid@,
        addr,
        token@,
    );
}

/// What a token or an answer is made from is what was given: the connection IDs in their places, the
/// version and the time.
pub proof fn lemma_token_inputs(
    version: QuicVersion,
    addr: SocketAddr,
    client: ConnectionId,
    server: ConnectionId,
    original: ConnectionId,
    timeout: Duration,
    ts: u64,
    input: RetryTokenInput,
    check: TokenCheck,
    packet: RetryPacket,
)
    requires
        call_ensures(RetryTokenInput::new, (version, addr, &server, &original, ts), input),
        call_ensures(TokenCheck::retry_token, (version, addr, &server, timeout, ts), check),
        call_ensures(RetryPacket::new, (version, &client, &server, &original), packet),
    ensures
        input.version == packet.version,
        input.version == (match version {
            QuicVersion::V1 => 1u32,
            QuicVersion::V2 => 0x6b3343cfu32,
        }),
        input.client_addr.address() == Some(crate::addr::without_scope(addr)),
        input.retry_scid.data@.take(server@.len() as int) == server@,
        input.original_dcid.data@.take(original@.len() as int) == original@,
        input.ts == ts,
        check.retry matches Some((v, cid)) && v == input.version && cid.data@.take(
            server@.len() as int,
        ) == server@,
        check.client_addr.address() == input.client_addr.address(),
        timeout.nanos < 0x1_0000_0000_0000_0000 ==> check.timeout == timeout.nanos,
        check.ts == ts,
        packet.dcid.data@.take(client@.len() as int) == client@,
        packet.scid.data@.take(server@.len() as int) == server@,
        packet.original_dcid.data@.take(original@.len() as int) == original@,
{
    crate::addr::lemma_sockaddr_roundtrip(input.client_addr, addr, true);
    crate::addr::lemma_sockaddr_roundtrip(check.client_addr, addr, true);
}

/// A connection ID holds the bytes it was made of, and is made of every 0 to 20 bytes.
pub proof fn lemma_connection_id_holds_bytes(
    data: &[u8],
    r: Option<ConnectionId>,
    cid: ConnectionId,
    held: &[u8],
    len: usize,
)
    requires
        call_ensures(ConnectionId::new, (data,), r),
        r is Some ==> r == Some(cid),
        call_ensures(ConnectionId::as_bytes, (&cid,), held),
        call_ensures(ConnectionId::len, (&cid,), len),
    ensures
        r is Some <==> data@.len() <= 20,
        r is Some ==> held@ == data@ && len == data@.len(),
{
}

/// Secrets and tokens give back the bytes they were made of.
pub proof fn lemma_secrets_hold_bytes(
    bytes: [u8; 32],
    token_bytes: [u8; 16],
    secret: StatelessResetSecret,
    held: &[u8; 32],
    retry_secret: RetrySecret,
    retry_held: &[u8; 32],
    token: StatelessResetToken,
    token_held: &[u8; 16],
)
    requires
        call_ensures(StatelessResetSecret::from_bytes, (bytes,), secret),
        call_ensures(StatelessResetSecret::expose, (&secret,), held),
        call_ensures(RetrySecret::from_bytes, (bytes,), retry_secret),
        call_ensures(RetrySecret::expose, (&retry_secret,), retry_held),
        call_ensures(StatelessResetToken::from_bytes, (token_bytes,), token),
        call_ensures(StatelessResetToken::as_bytes, (&token,), token_held),
    ensures
        held@ == bytes@,
        retry_held@ == bytes@,
        token_held@ == token_bytes@,
{
}

/// Data that is put in flight is in flight, at the position where it was put.
pub proof fn lemma_data_is_in_flight(
    offset: u64,
    data: &[u8],
    entry: InFlightStreamData,
    unacked: Vec<u8>,
    position: u64,
    held: usize,
)
    requires
        call_ensures(InFlightStreamData::starting_at, (offset, data), entry),
        call_ensures(InFlightStreamData::unacked, (&entry,), unacked),
        call_ensures(InFlightStreamData::offset, (&entry,), position),
        call_ensures(InFlightStreamData::held, (&entry,), held),
    ensures
        unacked@ == data@,
        position == offset,
        held == data@.len(),
{
    let none = InFlight { offset: offset as nat, ..InFlight::empty() };
    crate::inflight::lemma_offered_is_what_was_added(none, data@);
    assert(none.data() =~= Seq::<u8>::empty());
    assert(none.data() + data@ =~= data@);
    assert(unacked@ =~= data@);
}

/// Each limit is set as it was given, and setting one leaves the others alone.
pub proof fn lemma_limits_are_set(
    params: TransportParams,
    n: u64,
    r0: TransportParams,
    r1: TransportParams,
    r2: TransportParams,
    r3: TransportParams,
    r4: TransportParams,
    r5: TransportParams,
    r6: TransportParams,
    r7: TransportParams,
    r8: TransportParams,
)
    requires
        call_ensures(TransportParams::with_initial_max_data, (params, n), r0),
        call_ensures(TransportParams::with_initial_max_stream_data_bidi_local, (params, n), r1),
        call_ensures(TransportParams::with_initial_max_stream_data_bidi_remote, (params, n), r2),
        call_ensures(TransportParams::with_initial_max_stream_data_uni, (params, n), r3),
        call_ensures(TransportParams::with_max_streams_bidi, (params, n), r4),
        call_ensures(TransportParams::with_max_streams_uni, (params, n), r5),
        call_ensures(TransportParams::with_ack_delay_exponent, (params, n), r6),
        call_ensures(TransportParams::with_max_udp_payload_size, (params, n), r7),
        call_ensures(TransportParams::with_datagram, (params, n), r8),
    ensures
        r0.initial_max_data == n,
        r0.initial_max_stream_data_bidi_local == params.initial_max_stream_data_bidi_local,
        r1.initial_max_stream_data_bidi_local == n,
        r1.initial_max_stream_data_bidi_remote == params.initial_max_stream_data_bidi_remote,
        r2.initial_max_stream_data_bidi_remote == n,
        r2.initial_max_stream_data_uni == params.initial_max_stream_data_uni,
        r3.initial_max_stream_data_uni == n,
        r3.initial_max_streams_bidi == params.initial_max_streams_bidi,
        r4.initial_max_streams_bidi == n,
        r4.initial_max_streams_uni == params.initial_max_streams_uni,
        r5.initial_max_streams_uni == n,
        r5.ack_delay_exponent == params.ack_delay_exponent,
        r6.ack_delay_exponent == n,
        r6.max_udp_payload_size == params.max_udp_payload_size,
        r7.max_udp_payload_size == n,
        r7.max_datagram_frame_size == params.max_datagram_frame_size,
        r8.max_datagram_frame_size == n,
        r8.initial_max_data == params.initial_max_data,
{
    assert(r0@.initial_max_data == n);
    assert(r0@.initial_max_stream_data_bidi_local == params@.initial_max_stream_data_bidi_local);
    assert(r1@.initial_max_stream_data_bidi_local == n);
    assert(r1@.initial_max_stream_data_bidi_remote == params@.initial_max_stream_data_bidi_remote);
    assert(r2@.initial_max_stream_data_bidi_remote == n);
    assert(r2@.initial_max_stream_data_uni == params@.initial_max_stream_data_uni);
    assert(r3@.initial_max_stream_data_uni == n);
    assert(r3@.initial_max_streams_bidi == params@.initial_max_streams_bidi);
    assert(r4@.initial_max_streams_bidi == n);
    assert(r4@.initial_max_streams_uni == params@.initial_max_streams_uni);
    assert(r5@.initial_max_streams_uni == n);
    assert(r5@.ack_delay_exponent == params@.ack_delay_exponent);
    assert(r6@.ack_delay_exponent == n);
    assert(r6@.max_udp_payload_size == params@.max_udp_payload_size);
    assert(r7@.max_udp_payload_size == n);
    assert(r7@.max_datagram_frame_size == params@.max_datagram_frame_size);
    assert(r8@.max_datagram_frame_size == n);
    assert(r8@.initial_max_data == params@.initial_max_data);
}

/// Each flag is set as it was given, and setting one leaves the others alone.
pub proof fn lemma_flags_are_set(
    params: TransportParams,
    set: bool,
    r0: TransportParams,
    r1: TransportParams,
    r2: TransportParams,
)
    requires
        call_ensures(TransportParams::with_disable_active_migration, (params, set), r0),
        call_ensures(TransportParams::with_grease_quic_bit, (params, set), r1),
        call_ensures(TransportParams::with_reset_stream_at, (params, set), r2),
    ensures
        r0.disable_active_migration == set,
        r0.grease_quic_bit == params.grease_quic_bit,
        r0.reset_stream_at == params.reset_stream_at,
        r1.grease_quic_bit == set,
        r1.disable_active_migration == params.disable_active_migration,
        r1.reset_stream_at == params.reset_stream_at,
        r2.reset_stream_at == set,
        r2.disable_active_migration == params.disable_active_migration,
        r2.grease_quic_bit == params.grease_quic_bit,
{
    assert(r0@.disable_active_migration == r0.disable_active_migration);
    assert(r0@.grease_quic_bit == r0.grease_quic_bit);
    assert(r0@.reset_stream_at == r0.reset_stream_at);
    assert(r1@.disable_active_migration == r1.disable_active_migration);
    assert(r1@.grease_quic_bit == r1.grease_quic_bit);
    assert(r1@.reset_stream_at == r1.reset_stream_at);
    assert(r2@.disable_active_migration == r2.disable_active_migration);
    assert(r2@.grease_quic_bit == r2.grease_quic_bit);
    assert(r2@.reset_stream_at == r2.reset_stream_at);
}

/// A stream that holds nothing has room for anything, and one that holds data for what an index still
/// reaches.
pub proof fn lemma_room_on_stream(conn: Connection, stream_id: StreamId, len: usize, r: bool)
    requires
        call_ensures(Connection::can_hold, (&conn, stream_id, len), r),
    ensures
        !conn.user_data.in_flight().contains_key(stream_id) ==> r,
        conn.user_data.in_flight().contains_key(stream_id) ==> (r
            <==> conn.user_data.in_flight()[stream_id].data().len() + len <= usize::MAX),
{
}

} // verus!
