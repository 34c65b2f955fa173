//! The state of a connection: data in flight, events, and what the engine returns.

use ngtcp2::addr::{
    cid_from_raw, cid_to_raw, path_info_from_raw, select_preferred_addr_callback,
    sockaddr_from_raw, sockaddr_to_raw, AddressFamily, RawSockaddr, SOCKADDR_IN6_LEN,
    SOCKADDR_IN_LEN,
};
use ngtcp2::config::RawTransportParams;
use ngtcp2::conn::{
    CloseInfo, CloseKind, ConnectionUserData, HandshakeStep, StreamWrite, WriteOutcome,
    WRITE_STREAM_FLAG_FIN,
};
use ngtcp2::inflight::InFlightStreamData;
use ngtcp2::types::SocketAddr;
use ngtcp2::{
    Connection, ConnectionEvent, ConnectionId, Error, PathInfo, RemoteTransportParams,
    SessionTicket, StatelessResetSecret, StatelessResetToken, TlsContext, WRITE_STREAM_FLAG_MORE,
};

fn connection() -> Connection {
    let context = TlsContext::new_client(&[b"hq-interop"]).context();
    Connection { user_data: ConnectionUserData::new(), tls_session: context.create_session() }
}

fn outcome(rv: isize) -> WriteOutcome {
    WriteOutcome { rv, message: None, local: None, remote: None, ecn: 2 }
}

fn address(last: u32, port: u16) -> SocketAddr {
    SocketAddr::V4 { ip4: 0x7f00_0000 + last, port }
}

fn peer(max_datagram_frame_size: u64, reset_stream_at: u8) -> Option<RemoteTransportParams> {
    Some(RemoteTransportParams::from_raw(&RawTransportParams {
        initial_max_data: 1,
        initial_max_stream_data_bidi_local: 2,
        initial_max_stream_data_bidi_remote: 3,
        initial_max_stream_data_uni: 4,
        initial_max_streams_bidi: 5,
        initial_max_streams_uni: 6,
        max_idle_timeout: 7,
        max_udp_payload_size: 8,
        active_connection_id_limit: 9,
        ack_delay_exponent: 10,
        max_ack_delay: 11,
        max_datagram_frame_size,
        disable_active_migration: 0,
        grease_quic_bit: 1,
        reset_stream_at,
        retry_scid_present: 0,
        retry_scid: cid_to_raw(&ConnectionId::empty()),
        original_dcid_present: 0,
        original_dcid: cid_to_raw(&ConnectionId::empty()),
        stateless_reset_token_present: 0,
        stateless_reset_token: [0; 16],
        preferred_addr: None,
    }))
}

#[test]
fn test_in_flight_stream_data_ack() {
    let mut data = InFlightStreamData::new();
    let appended = data.append(b"0123456789");
    assert_eq!(appended, 0..10);
    assert_eq!(data.unacked(), b"0123456789");

    data.ack_until(4);
    assert_eq!(data.unacked(), b"456789");
    assert_eq!(data.offset(), 4);

    data.ack_until(2);
    assert_eq!(data.unacked(), b"456789");

    data.ack_until(10);
    assert!(data.unacked().is_empty());
    assert_eq!(data.offset(), 10);

    data.append(b"abc");
    assert_eq!(data.unacked(), b"abc");
}

#[test]
fn test_in_flight_stream_data_truncate_unwritten() {
    let mut data = InFlightStreamData::new();
    data.append(b"0123456789");
    data.truncate_unwritten(4);
    assert_eq!(data.unacked(), b"0123");

    let appended = data.append(b"456789");
    assert_eq!(appended, 4..10);
    assert_eq!(data.unacked(), b"0123456789");
}

#[test]
fn test_in_flight_stream_data_closed_stream() {
    let mut user_data = ConnectionUserData::new();
    user_data
        .in_flight_stream_data
        .insert(0, InFlightStreamData::starting_at(0, b"abc"));
    user_data
        .in_flight_stream_data
        .insert(4, InFlightStreamData::starting_at(0, b"def"));

    user_data.closed_stream(0);
    assert!(!user_data.in_flight_stream_data.contains_key(&0));
    assert!(user_data.in_flight_stream_data.contains_key(&4));
}

#[test]
fn test_acked_stream_data() {
    let mut user_data = ConnectionUserData::new();
    user_data
        .in_flight_stream_data
        .insert(0, InFlightStreamData::starting_at(100, b"abcdef"));

    user_data.acked_stream_data(0, 100, 2);
    let entry = user_data.in_flight_stream_data.get(&0).expect("a value");
    assert_eq!(entry.unacked(), b"cdef");

    user_data.acked_stream_data(4, 0, 10);
    assert_eq!(user_data.in_flight_stream_data.len(), 1);
}

#[test]
fn acknowledged_data_is_released_in_order() {
    let mut data = InFlightStreamData::new();
    let bytes: Vec<u8> = (0..200_000u32).map(|i| (i % 251) as u8).collect();
    data.append(&bytes);
    for upto in [1u64, 70_000, 130_000, 199_999] {
        data.ack_until(upto);
        assert_eq!(data.unacked(), &bytes[upto as usize..]);
        assert_eq!(data.offset(), upto);
    }
    data.ack_until(199_999);
    assert_eq!(data.unacked().len(), 1);
    data.ack_until(200_000);
    assert!(data.unacked().is_empty());
}

#[test]
fn an_acknowledgement_beyond_what_is_left_stops_at_the_end() {
    let mut data = InFlightStreamData::new();
    data.append(b"abcdef");
    data.ack_until(4);
    data.ack_until(100);
    assert_eq!(data.offset(), 6);
    assert!(data.unacked().is_empty());
    data.append(b"ghi");
    data.ack_until(7);
    assert_eq!(data.unacked(), b"hi");
}

#[test]
fn each_write_is_a_piece_that_is_released_as_a_whole() {
    let mut data = InFlightStreamData::new();
    assert_eq!(data.append(b"abcd"), 0..4);
    assert_eq!(data.append(b"efgh"), 4..8);
    assert_eq!(data.offered(4, 8), b"efgh");
    assert_eq!(data.offered(0, 4), b"");
    data.ack_until(3);
    assert_eq!((data.held(), data.offset()), (8, 3));
    data.ack_until(5);
    assert_eq!((data.held(), data.offset()), (4, 5));
    assert_eq!(data.unacked(), b"fgh");
    data.end_write(4, 0);
    assert_eq!(data.unacked(), b"fgh");
    assert_eq!(data.append(b""), 4..4);
    assert_eq!(data.append(b"ij"), 4..6);
    data.end_write(4, 1);
    assert_eq!(data.unacked(), b"fghi");
    data.truncate_unwritten(2);
    assert_eq!(data.unacked(), b"fg");
    data.truncate_unwritten(0);
    assert_eq!((data.held(), data.offset()), (0, 5));
}

#[test]
fn data_that_is_in_flight_does_not_move() {
    let mut data = InFlightStreamData::new();
    let range = data.append(&[7u8; 10]);
    let place = data.offered(range.start, range.end).as_ptr();
    data.end_write(range.start, 6);
    for _ in 0..100 {
        let range = data.append(&[8u8; 1000]);
        data.end_write(range.start, 0);
    }
    assert_eq!(data.offered(0, 6).as_ptr(), place);
    assert_eq!(data.unacked(), [7u8; 6]);
}

#[test]
fn an_acknowledgement_beyond_the_data_stops_at_its_end() {
    let mut data = InFlightStreamData::new();
    data.append(b"abc");
    data.ack_until(u64::MAX);
    assert_eq!(data.offset(), 3);
    assert!(data.unacked().is_empty());
}

#[test]
fn test_cid_to_raw() {
    let cid = ConnectionId::new(&[0x01, 0x02, 0x03, 0x04]).expect("a value");
    let raw = cid_to_raw(&cid);
    assert_eq!(raw.datalen, 4);
    assert_eq!(&raw.data[..4], &[0x01, 0x02, 0x03, 0x04]);
    assert!(raw.data[4..].iter().all(|b| *b == 0));
    assert_eq!(cid_from_raw(&raw), Some(cid));
}

#[test]
fn test_sockaddr_to_raw_v4() {
    let raw = sockaddr_to_raw(&SocketAddr::V4 { ip4: 0x7f00_0001, port: 4433 });
    assert_eq!(raw.len, SOCKADDR_IN_LEN);
    assert!(raw.family == AddressFamily::Inet);
    assert_eq!(u16::from_be_bytes(raw.port), 4433);
    assert_eq!(&raw.addr[..4], &[127, 0, 0, 1]);
}

#[test]
fn test_sockaddr_to_raw_v6() {
    let raw =
        sockaddr_to_raw(&SocketAddr::V6 { ip6: 1, port: 4433, flowinfo: 0, scope_id: 0 });
    assert_eq!(raw.len, SOCKADDR_IN6_LEN);
    assert!(raw.family == AddressFamily::Inet6);
    assert_eq!(u16::from_be_bytes(raw.port), 4433);
    assert_eq!(raw.addr[15], 1);
}

#[test]
fn addresses_survive_the_raw_form() {
    for addr in [
        SocketAddr::V4 { ip4: 0xc0a8_0102, port: 0xabcd },
        SocketAddr::V6 { ip6: u128::MAX - 5, port: 1, flowinfo: 0, scope_id: 0 },
    ] {
        assert_eq!(sockaddr_from_raw(&sockaddr_to_raw(&addr)), Some(addr));
    }
    // The flow label and the scope are not read back.
    let scoped = SocketAddr::V6 { ip6: 9, port: 2, flowinfo: 7, scope_id: 3 };
    assert_eq!(
        sockaddr_from_raw(&sockaddr_to_raw(&scoped)),
        Some(SocketAddr::V6 { ip6: 9, port: 2, flowinfo: 0, scope_id: 0 })
    );
}

#[test]
fn a_path_needs_both_addresses() {
    let raw: RawSockaddr = sockaddr_to_raw(&address(1, 2));
    assert_eq!(
        path_info_from_raw(Some(raw), Some(raw)),
        Some(PathInfo { local: address(1, 2), remote: address(1, 2) })
    );
    assert_eq!(path_info_from_raw(None, Some(raw)), None);
    assert_eq!(path_info_from_raw(Some(raw), None), None);
}

#[test]
fn the_preferred_address_has_the_family_of_the_path() {
    let v4 = sockaddr_to_raw(&address(9, 443));
    let v6 = sockaddr_to_raw(&SocketAddr::V6 { ip6: 5, port: 443, flowinfo: 0, scope_id: 0 });
    let pick = |family| select_preferred_addr_callback(family, Some(v4), Some(v6));
    assert_eq!(sockaddr_from_raw(&pick(AddressFamily::Inet).expect("a value")), Some(address(9, 443)));
    assert!(pick(AddressFamily::Inet6).expect("a value").family == AddressFamily::Inet6);
    assert!(select_preferred_addr_callback(AddressFamily::Inet, None, Some(v6)).is_none());
}

#[test]
fn test_session_ticket_roundtrip() {
    let ticket = SessionTicket::new(vec![1, 2, 3], vec![4, 5]);
    assert_eq!(ticket.session(), &[1, 2, 3]);
    assert_eq!(ticket.transport_params(), &[4, 5]);

    let restored =
        SessionTicket::new(ticket.session().to_vec(), ticket.transport_params().to_vec());
    assert!(restored == ticket);
}

#[test]
fn test_session_ticket_debug_hides_contents() {
    let ticket = SessionTicket::new(vec![0xde, 0xad], vec![0xbe, 0xef, 0x00]);
    assert_eq!(ticket.debug(), "SessionTicket { session_len: 2, transport_params_len: 3 }");
}

#[test]
fn a_write_keeps_what_went_out() {
    let mut conn = connection();
    let write = conn.write_stream(4, b"hello world", true);
    assert_eq!(write, StreamWrite { stream_id: 4, start: 0, end: 11, flags: WRITE_STREAM_FLAG_FIN });
    assert_eq!(conn.offered(&write), b"hello world");
    match conn.stream_written(write, 5, outcome(120)) {
        Ok((len, written, path, info)) => {
            assert_eq!((len, written, path, info.ecn), (120, Some(5), None, 2));
        }
        Err(e) => panic!("unexpected: {e:?}"),
    }
    assert_eq!(conn.user_data.in_flight_stream_data[&4].unacked(), b"hello");

    // The rest is offered again, behind what is in flight.
    let write = conn.write_stream_with_flags(4, b" world", false, WRITE_STREAM_FLAG_MORE);
    assert_eq!((write.start, write.end, write.flags), (5, 11, WRITE_STREAM_FLAG_MORE));
    assert_eq!(conn.offered(&write), b" world");
    assert!(conn.stream_written(write, 6, outcome(80)).is_ok());
    assert_eq!(conn.user_data.in_flight_stream_data[&4].unacked(), b"hello world");
}

#[test]
fn a_write_after_an_acknowledgement_keeps_the_rest() {
    let mut conn = connection();
    let write = conn.write_stream(0, b"abcdef", false);
    assert!(conn.stream_written(write, 6, outcome(60)).is_ok());
    conn.user_data.acked_stream_data(0, 0, 2);
    let write = conn.write_stream(0, b"ghi", false);
    assert!(conn.stream_written(write, 1, outcome(60)).is_ok());
    assert_eq!(conn.user_data.in_flight_stream_data[&0].unacked(), b"cdefg");
}

#[test]
fn results_of_a_write_are_told_apart() {
    let mut conn = connection();
    let write = conn.write_stream(8, b"xyz", false);
    assert!(matches!(conn.stream_written(write, -1, outcome(-208)), Err(Error::StreamDataBlocked(8))));
    assert!(conn.user_data.in_flight_stream_data[&8].unacked().is_empty());
    let write = conn.write_stream(8, b"xyz", false);
    assert!(matches!(conn.stream_written(write, -1, outcome(-219)), Err(Error::StreamShutWr(8))));
    let write = conn.write_stream(8, b"xyz", false);
    assert!(matches!(conn.stream_written(write, 3, outcome(-230)), Ok((0, Some(3), None, _))));
    let write = conn.write_stream(8, b"xyz", false);
    assert!(matches!(conn.stream_written(write, -1, outcome(-213)), Err(Error::Ngtcp2(_, -213))));
    let write = conn.write_stream(8, b"", false);
    assert!(matches!(conn.stream_written(write, -1, outcome(0)), Ok((0, None, None, _))));
}

#[test]
fn a_packet_names_its_path() {
    let local = Some(sockaddr_to_raw(&address(1, 1)));
    let remote = Some(sockaddr_to_raw(&address(2, 2)));
    let sent = WriteOutcome { rv: 42, message: None, local, remote, ecn: 1 };
    match Connection::write_pkt(sent) {
        Ok((len, info, path)) => {
            assert_eq!((len, info.ecn), (42, 1));
            assert_eq!(path, Some(PathInfo { local: address(1, 1), remote: address(2, 2) }));
        }
        Err(e) => panic!("unexpected: {e:?}"),
    }
    let idle = WriteOutcome { rv: 0, message: None, local, remote, ecn: 0 };
    assert!(matches!(Connection::write_pkt(idle), Ok((0, _, None))));
    assert!(matches!(Connection::write_pkt(outcome(-502)), Err(Error::Ngtcp2(_, -502))));
}

#[test]
fn datagrams_need_a_peer_that_takes_them() {
    assert!(Connection::can_send_datagram(&peer(1, 0)));
    assert!(!Connection::can_send_datagram(&peer(0, 0)));
    assert!(!Connection::can_send_datagram(&None));
    assert!(matches!(
        Connection::write_datagram(&peer(65535, 0), 1, outcome(90)),
        Ok((90, true, None, _))
    ));
    assert!(matches!(
        Connection::write_datagram(&peer(65535, 0), 0, outcome(0)),
        Ok((0, false, None, _))
    ));
    assert!(matches!(
        Connection::write_datagram(&peer(65535, 0), 0, outcome(-201)),
        Err(Error::Ngtcp2(_, -201))
    ));
    match Connection::write_datagram(&None, 0, outcome(0)) {
        Err(e) => assert_eq!(
            e.display(),
            "ngtcp2 error: ERR_INVALID_STATE: remote peer does not support DATAGRAM (-204)"
        ),
        Ok(_) => panic!("unexpected"),
    }
}

#[test]
fn reset_stream_at_is_asked_of_the_peer() {
    assert!(Connection::supports_reset_stream_at(&peer(0, 1)));
    assert!(!Connection::supports_reset_stream_at(&peer(0, 0)));
    assert!(!Connection::supports_reset_stream_at(&None));
}

#[test]
fn keys_are_updated_only_after_the_handshake() {
    assert!(Connection::initiate_key_update(true, false, false).is_ok());
    for (done, closing, draining) in [(false, false, false), (true, true, false), (true, false, true)] {
        match Connection::initiate_key_update(done, closing, draining) {
            Err(e) => assert_eq!(
                e.display(),
                "invalid argument: key update requires a connection in the post-handshake state"
            ),
            Ok(()) => panic!("unexpected"),
        }
    }
}

#[test]
fn events_come_out_in_order() {
    let mut conn = connection();
    assert!(!conn.has_event());
    let step = conn.user_data.handshake_completed_callback(false, false);
    assert_eq!(step, HandshakeStep::Done);
    conn.user_data.stream_open_callback(0);
    conn.user_data.recv_stream_data_callback(0, b"hi".to_vec(), true);
    conn.user_data.stream_reset_callback(4, 10, 7);
    conn.user_data.recv_stop_sending_callback(4, 8);
    conn.user_data.extend_max_stream_data_callback(0, 99);
    conn.user_data.extend_max_local_streams_bidi_callback(3);
    conn.user_data.extend_max_local_streams_uni_callback(4);
    conn.user_data.recv_datagram_callback(vec![1]);
    conn.user_data.stream_close_callback(0, true, 5, false, 6);
    conn.user_data.handshake_confirmed_callback();
    conn.user_data.tls_early_data_rejected_callback();
    conn.user_data.recv_stateless_reset_callback();
    let path = PathInfo { local: address(1, 1), remote: address(2, 2) };
    conn.user_data.path_validation_callback(Some(path), true);
    conn.user_data.path_validation_callback(None, true);

    let mut events = Vec::new();
    while let Some(event) = conn.poll_event() {
        events.push(event);
    }
    assert_eq!(
        events,
        vec![
            ConnectionEvent::HandshakeCompleted,
            ConnectionEvent::StreamOpened { stream_id: 0 },
            ConnectionEvent::StreamData { stream_id: 0, data: b"hi".to_vec(), fin: true },
            ConnectionEvent::StreamReset { stream_id: 4, final_size: 10, app_error_code: 7 },
            ConnectionEvent::StreamStopSending { stream_id: 4, app_error_code: 8 },
            ConnectionEvent::StreamMaxData { stream_id: 0, max_data: 99 },
            ConnectionEvent::MaxStreamsBidi { max_streams: 3 },
            ConnectionEvent::MaxStreamsUni { max_streams: 4 },
            ConnectionEvent::Datagram { data: vec![1] },
            ConnectionEvent::StreamClosed {
                stream_id: 0,
                rx_app_error_code: Some(5),
                tx_app_error_code: None,
            },
            ConnectionEvent::HandshakeConfirmed,
            ConnectionEvent::EarlyDataRejected,
            ConnectionEvent::StatelessResetReceived,
            ConnectionEvent::PathValidated { path, success: true },
        ]
    );
    assert!(!conn.has_event());
}

#[test]
fn connection_ids_tokens_and_qlog_are_taken_once() {
    let mut conn = connection();
    conn.user_data.remove_connection_id_callback(&[1, 2]);
    conn.user_data.remove_connection_id_callback(&[0; 21]);
    assert_eq!(conn.poll_retired_cids(), vec![ConnectionId::new(&[1, 2]).expect("a value")]);
    assert!(conn.poll_retired_cids().is_empty());

    conn.user_data.recv_new_token_callback(vec![1]);
    conn.user_data.recv_new_token_callback(vec![2]);
    assert_eq!(conn.take_new_token(), Some(vec![1]));
    assert_eq!(conn.take_new_token(), Some(vec![2]));
    assert_eq!(conn.take_new_token(), None);

    assert_eq!(conn.poll_qlog_data(), None);
    conn.user_data.qlog_write_callback(b"ab");
    conn.user_data.qlog_write_callback(b"c");
    assert_eq!(conn.poll_qlog_data(), Some(b"abc".to_vec()));
    assert_eq!(conn.poll_qlog_data(), None);
}

#[test]
fn issued_connection_ids_carry_the_derived_token() {
    let mut conn = connection();
    conn.user_data.stateless_reset_secret = Some(StatelessResetSecret::from_bytes([3; 32]));
    let new = conn.user_data.new_connection_id(16).expect("a value");
    assert_eq!(new.cid.len(), 16);
    assert!(new.secret == conn.user_data.stateless_reset_secret);
    let derived = StatelessResetToken::from_bytes([9; 16]);
    let (cid, token) =
        conn.user_data.get_new_connection_id_callback(new, Some(derived)).expect("a value");
    assert!(token == derived);
    assert_eq!(conn.poll_issued_cids(), vec![ConnectionId::new(&cid).expect("a value")]);

    let first = conn.user_data.new_connection_id(8).expect("a value");
    let second = conn.user_data.new_connection_id(8).expect("a value");
    assert_ne!(first.cid, second.cid);
    let (_, one) = conn.user_data.get_new_connection_id_callback(first, None).expect("a value");
    let (_, two) = conn.user_data.get_new_connection_id_callback(second, None).expect("a value");
    assert_ne!(one.as_bytes(), two.as_bytes());
    assert_eq!(conn.poll_issued_cids().len(), 2);

    let long = conn.user_data.new_connection_id(21).expect("a value");
    assert!(long.secret.is_none());
    assert!(conn.user_data.get_new_connection_id_callback(long, Some(derived)).is_ok());
    assert!(conn.poll_issued_cids().is_empty());
}

#[test]
fn rejected_early_data_is_reported_to_the_engine_first() {
    let mut conn = connection();
    conn.user_data.early_data_attempted = true;
    let step = conn.user_data.handshake_completed_callback(false, false);
    assert_eq!(step, HandshakeStep::RejectEarlyData);
    assert!(!conn.has_event());
    conn.user_data.tls_early_data_rejected_callback();
    let step = conn.user_data.handshake_completed_callback(false, true);
    assert_eq!(step, HandshakeStep::Done);
    assert_eq!(conn.poll_event(), Some(ConnectionEvent::EarlyDataRejected));
    assert_eq!(conn.poll_event(), Some(ConnectionEvent::HandshakeCompleted));

    let step = conn.user_data.handshake_completed_callback(true, false);
    assert_eq!(step, HandshakeStep::Done);
    assert_eq!(conn.poll_event(), Some(ConnectionEvent::HandshakeCompleted));
}

#[test]
fn tickets_join_session_and_parameters() {
    let mut conn = connection();
    if let Some(slot) = conn.tls_session.ticket_slot.as_mut() {
        slot.store(vec![7, 8]);
    }
    assert_eq!(conn.take_session(false), None);
    let session = conn.take_session(true);
    assert_eq!(session, Some(vec![7, 8]));
    assert_eq!(conn.take_session(true), None);

    let buf = [1, 2, 3, 4];
    match Connection::take_session_ticket(session, 3, &buf, None) {
        Ok(Some(ticket)) => {
            assert_eq!(ticket.session(), &[7, 8]);
            assert_eq!(ticket.transport_params(), &[1, 2, 3]);
        }
        _ => panic!("unexpected"),
    }
    assert!(matches!(Connection::take_session_ticket(None, -1, &buf, None), Ok(None)));
    assert!(matches!(
        Connection::take_session_ticket(Some(vec![1]), -202, &buf, None),
        Err(Error::Ngtcp2(_, -202))
    ));
}

#[test]
fn the_end_of_a_connection_is_explained() {
    let closed = |kind, reason: Option<&[u8]>| {
        Connection::get_connection_error(Some(CloseInfo {
            error_code: 0x0b,
            reason: reason.map(|r| r.to_vec()),
            kind,
        }))
    };
    let error = closed(CloseKind::Application, Some("done \u{2713}".as_bytes()));
    assert_eq!(error.error_code, 0x0b);
    assert_eq!(error.reason, "done \u{2713}");
    assert!(error.is_application && error.has_error);

    // What is not UTF-8 is replaced.
    let error = closed(CloseKind::Other, Some(&[b'a', 0xff, b'b']));
    assert_eq!(error.reason, "a\u{fffd}b");
    assert!(!error.is_application && error.has_error);

    let error = closed(CloseKind::IdleClose, None);
    assert_eq!(error.reason, "");
    assert!(!error.is_application && !error.has_error);

    let error = Connection::get_connection_error(None);
    assert_eq!((error.error_code, error.reason.as_str()), (0, ""));
    assert!(!error.is_application && !error.has_error);
}

#[test]
fn an_acknowledgement_near_the_largest_position_saturates() {
    let mut user_data = ConnectionUserData::new();
    user_data
        .in_flight_stream_data
        .insert(0, InFlightStreamData::starting_at(u64::MAX - 3, b"abc"));
    user_data.acked_stream_data(0, u64::MAX - 1, 100);
    assert!(user_data.in_flight_stream_data[&0].unacked().is_empty());
    assert_eq!(user_data.in_flight_stream_data[&0].offset(), u64::MAX);
}

#[test]
fn whatever_happens_the_unacknowledged_bytes_are_held() {
    let mut conn = connection();
    let mut sent: Vec<u8> = Vec::new();
    let mut acked = 0usize;
    for round in 0..50usize {
        let data: Vec<u8> = (0..round * 700).map(|i| (i * 31 + round) as u8).collect();
        let write = conn.write_stream(0, &data, false);
        assert_eq!(conn.offered(&write), &data[..]);
        let taken = data.len() * (round % 4) / 3;
        let taken = taken.min(data.len());
        assert!(conn.stream_written(write, taken as isize, outcome(100)).is_ok());
        sent.extend_from_slice(&data[..taken]);
        if round % 3 == 1 {
            let upto = acked + (sent.len() - acked) * 2 / 3;
            conn.user_data.acked_stream_data(0, acked as u64, (upto - acked) as u64);
            acked = upto;
        }
        assert_eq!(conn.user_data.in_flight_stream_data[&0].unacked(), &sent[acked..]);
        assert_eq!(conn.user_data.in_flight_stream_data[&0].offset(), acked as u64);
    }
}

#[test]
fn numbers_of_the_engine_and_the_platform_are_told_apart() {
    assert_eq!(CloseKind::from_number(1, 1, 3), CloseKind::Application);
    assert_eq!(CloseKind::from_number(3, 1, 3), CloseKind::IdleClose);
    assert_eq!(CloseKind::from_number(0, 1, 3), CloseKind::Other);
    assert_eq!(AddressFamily::from_number(2, 2, 10), AddressFamily::Inet);
    assert_eq!(AddressFamily::from_number(10, 2, 10), AddressFamily::Inet6);
    assert_eq!(AddressFamily::from_number(1, 2, 10), AddressFamily::Other);
}

#[test]
fn a_stream_has_room_for_what_an_index_reaches() {
    let mut conn = connection();
    assert!(conn.can_hold(0, usize::MAX));
    let write = conn.write_stream(0, b"abc", false);
    assert!(conn.stream_written(write, 3, outcome(50)).is_ok());
    assert!(conn.can_hold(0, usize::MAX - 3) && !conn.can_hold(0, usize::MAX - 2));
}
