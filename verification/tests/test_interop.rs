//! The endpoints of an interoperability test.

use ngtcp2::interop::{EchoAction, EchoReader, EchoSession, Migration, TestEvent};
use ngtcp2::types::SocketAddr;
use ngtcp2::{ConnectionEvent, PathInfo};

fn data(stream_id: i64, bytes: &[u8], fin: bool) -> ConnectionEvent {
    ConnectionEvent::StreamData { stream_id, data: bytes.to_vec(), fin }
}

fn validated(success: bool) -> ConnectionEvent {
    let addr = SocketAddr::V4 { ip4: 1, port: 2 };
    ConnectionEvent::PathValidated { path: PathInfo { local: addr, remote: addr }, success }
}

#[test]
fn a_server_sends_back_all_it_received() {
    let mut session = EchoSession::new(false);
    assert_eq!(
        session.drive_until_closed(TestEvent::Reported(ConnectionEvent::HandshakeCompleted)),
        EchoAction::Wait
    );
    assert_eq!(
        session.drive_until_closed(TestEvent::Reported(data(0, b"abc", false))),
        EchoAction::Credit { stream_id: 0, len: 3 }
    );
    assert!(!session.echo_sent);
    assert_eq!(
        session.drive_until_closed(TestEvent::Reported(data(0, b"de", true))),
        EchoAction::Echo { stream_id: 0, len: 2, stop: true }
    );
    assert_eq!(session.received, b"abcde");
    assert_eq!(session.echo(), b"abcde");
    let echoed = session.finish(true);
    assert_eq!(echoed.data, b"abcde");
    assert!(echoed.received_early_data && echoed.echo_sent && !echoed.path_validated);
}

#[test]
fn a_server_may_go_on_until_the_peer_closes() {
    let mut session = EchoSession::new(true);
    assert_eq!(
        session.drive_until_closed(TestEvent::Reported(data(4, b"x", true))),
        EchoAction::Echo { stream_id: 4, len: 1, stop: false }
    );
    assert_eq!(
        session.drive_until_closed(TestEvent::Reported(validated(false))),
        EchoAction::Wait
    );
    assert!(!session.path_validated);
    session.drive_until_closed(TestEvent::Reported(validated(true)));
    assert!(session.path_validated);
    assert_eq!(session.drive_until_closed(TestEvent::Closed), EchoAction::Stop);
}

#[test]
fn a_client_reads_until_the_stream_ends() {
    let mut reader = EchoReader::new();
    assert_eq!(reader.read_until_fin(ConnectionEvent::HandshakeConfirmed), None);
    assert_eq!(reader.read_until_fin(data(0, b"he", false)), Some((0, 2)));
    assert!(!reader.fin);
    assert_eq!(reader.read_until_fin(data(0, b"y", true)), Some((0, 1)));
    assert!(reader.fin);
    assert_eq!(reader.received, b"hey");
}

#[test]
fn a_client_moves_after_confirmation_and_sends_after_validation() {
    let mut m = Migration::start();
    m = m.on_event(&ConnectionEvent::HandshakeCompleted);
    assert_eq!(m, Migration::AwaitConfirmation);
    assert_eq!(m.on_try(true), Migration::AwaitConfirmation);
    m = m.on_event(&ConnectionEvent::HandshakeConfirmed);
    assert_eq!(m, Migration::Moving { failed: 0 });
    m = m.on_try(false);
    assert_eq!(m, Migration::AwaitEvent { failed: 1 });
    m = m.on_event(&ConnectionEvent::StatelessResetReceived);
    m = m.on_try(true);
    assert_eq!(m, Migration::AwaitValidation);
    assert_eq!(m.on_event(&data(0, b"", false)), Migration::AwaitValidation);
    assert_eq!(m.on_event(&validated(false)), Migration::PathInvalid);
    assert_eq!(m.on_event(&validated(true)), Migration::Ready);
}

#[test]
fn a_client_gives_up_after_ten_tries() {
    let mut m = Migration::start().on_event(&ConnectionEvent::HandshakeConfirmed);
    let mut tries = 0;
    while let Migration::Moving { failed } = m {
        assert_eq!(failed, tries);
        tries += 1;
        m = m.on_try(false).on_event(&ConnectionEvent::HandshakeCompleted);
    }
    assert_eq!(tries, 10);
    assert_eq!(m, Migration::NotMoved);
}
