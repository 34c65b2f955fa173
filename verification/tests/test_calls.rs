//! Calls into the engine on a connection.

use ngtcp2::addr::{path_info_from_raw, sockaddr_from_raw};
use ngtcp2::calls::{after_read, raw_path, AfterRead, StreamShutdown, StreamSide};
use ngtcp2::stats::ConnInfo;
use ngtcp2::types::{Duration, SocketAddr};
use ngtcp2::{Connection, Error, PacketInfo, PathInfo, QuicVersion};

fn path() -> PathInfo {
    PathInfo {
        local: SocketAddr::V4 { ip4: 0x7f00_0001, port: 50000 },
        remote: SocketAddr::V6 { ip6: 1, port: 4433, flowinfo: 0, scope_id: 0 },
    }
}

#[test]
fn a_packet_is_read_on_its_path() {
    let call = Connection::read_pkt(&path(), &PacketInfo { ecn: 3 });
    assert_eq!(call.ecn, 3);
    assert_eq!(sockaddr_from_raw(&call.path.local), Some(path().local));
    assert_eq!(sockaddr_from_raw(&call.path.remote), Some(path().remote));
}

#[test]
fn paths_survive_the_raw_form() {
    let raw = raw_path(&path());
    assert_eq!(path_info_from_raw(Some(raw.local), Some(raw.remote)), Some(path()));
}

#[test]
fn errors_decide_what_may_be_written() {
    let engine = |code| Error::from_ngtcp2(code, None);
    assert_eq!(after_read(None), AfterRead::Write);
    assert_eq!(after_read(Some(&engine(-226))), AfterRead::Write);
    assert_eq!(after_read(Some(&engine(-213))), AfterRead::Close { code: Some(-213) });
    for code in [-231, -232, -238, -223, -224] {
        assert_eq!(after_read(Some(&engine(code))), AfterRead::Nothing);
    }
    assert_eq!(after_read(Some(&Error::StreamShutWr(0))), AfterRead::Write);
    assert_eq!(after_read(Some(&Error::ConnectionClosed)), AfterRead::Nothing);
    assert_eq!(after_read(Some(&Error::Internal("x".to_string()))), AfterRead::Nothing);
}

#[test]
fn opened_streams_are_returned() {
    assert!(matches!(Connection::open_bidi_stream(0, 4, None), Ok(4)));
    assert!(matches!(Connection::open_uni_stream(0, 6, None), Ok(6)));
    assert!(matches!(Connection::open_bidi_stream(-206, 0, None), Err(Error::Ngtcp2(_, -206))));
    assert!(matches!(Connection::open_uni_stream(-206, 0, None), Err(Error::Ngtcp2(_, -206))));
}

#[test]
fn shutdowns_name_their_side() {
    let call = |side, flush| StreamShutdown { side, flush, stream_id: 8, error_code: 9 };
    assert_eq!(Connection::shutdown_stream(8, 9), call(StreamSide::Both, false));
    assert_eq!(Connection::shutdown_stream_write(8, 9), call(StreamSide::Write, false));
    assert_eq!(Connection::shutdown_stream_write_reliable(8, 9), call(StreamSide::Write, true));
    assert_eq!(Connection::shutdown_stream_read(8, 9), call(StreamSide::Read, false));
}

#[test]
fn versions_and_parameters_may_be_missing() {
    assert_eq!(Connection::negotiated_version(1), Some(QuicVersion::V1));
    assert_eq!(Connection::negotiated_version(0), None);
    assert!(Connection::remote_transport_params(None).is_none());
}

#[test]
fn closing_frames_tell_transport_from_application() {
    let frame = Connection::write_connection_close(0x0a, b"bad");
    assert!(!frame.is_application);
    assert_eq!((frame.error_code, frame.reason), (0x0a, b"bad".to_vec()));
    let frame = Connection::write_connection_close_app(7, b"");
    assert!(frame.is_application);
    assert_eq!((frame.error_code, frame.reason), (7, Vec::new()));
    assert!(matches!(Connection::write_ccerr(33, None), Ok(33)));
    assert!(matches!(Connection::write_ccerr(-202, None), Err(Error::Ngtcp2(_, -202))));
}

#[test]
fn statistics_of_a_connection() {
    let stats = Connection::stats(&ConnInfo {
        latest_rtt: 0,
        min_rtt: 5,
        smoothed_rtt: 0,
        rttvar: 0,
        cwnd: 0,
        ssthresh: 6,
        bytes_in_flight: 0,
        pkt_sent: 0,
        bytes_sent: 0,
        pkt_recv: 0,
        bytes_recv: 0,
        pkt_lost: 0,
        bytes_lost: 0,
        ping_recv: 0,
        pkt_discarded: 0,
    });
    assert_eq!(stats.min_rtt, Some(Duration::from_nanos(5)));
    assert_eq!(stats.ssthresh, Some(6));
}
