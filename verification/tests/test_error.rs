
//! Errors: their texts and what they mean for a connection.

use ngtcp2::error::{check_ngtcp2, check_written, NGTCP2_ERR_NOBUF};
use ngtcp2::{ConnectionErrorKind, Error};

const ERR_INVALID_ARGUMENT: i32 = -201;
const ERR_DISCARD_PKT: i32 = -226;
const ERR_DROP_CONN: i32 = -232;
const ERR_IDLE_CLOSE: i32 = -238;
const ERR_RETRY: i32 = -231;
const ERR_DRAINING: i32 = -224;
const ERR_CLOSING: i32 = -223;
const ERR_CRYPTO: i32 = -213;

#[test]
fn test_error_from_ngtcp2_message() {
    let err = Error::from_ngtcp2(ERR_INVALID_ARGUMENT, Some("ERR_INVALID_ARGUMENT".to_string()));
    match &err {
        Error::Ngtcp2(msg, code) => {
            assert_eq!(*code, ERR_INVALID_ARGUMENT);
            assert!(!msg.is_empty());
            assert_ne!(msg, "unknown error");
        }
        other => panic!("an engine error is expected: {other:?}"),
    }
    let displayed = err.display();
    assert!(displayed.contains("ngtcp2 error"));
    assert!(displayed.contains(&ERR_INVALID_ARGUMENT.to_string()));
}

#[test]
fn test_error_from_ngtcp2_unknown_code() {
    let err = Error::from_ngtcp2(-99999, None);
    let displayed = err.display();
    assert!(displayed.contains("-99999"));
}

#[test]
fn test_error_display() {
    assert_eq!(
        Error::InvalidArgument("bad input".to_string()).display(),
        "invalid argument: bad input"
    );
    assert_eq!(Error::ConnectionClosed.display(), "connection is closed");
    assert_eq!(Error::StreamDataBlocked(8).display(), "stream data blocked: 8");
    assert_eq!(Error::StreamShutWr(12).display(), "stream shut wr: 12");
    assert_eq!(Error::Internal("boom".to_string()).display(), "internal error: boom");
}

#[test]
fn test_classify_connection_error_ngtcp2() {
    assert_eq!(
        Error::from_ngtcp2(ERR_DISCARD_PKT, None).classify_connection_error(),
        ConnectionErrorKind::Ignore
    );
    for code in [ERR_DROP_CONN, ERR_IDLE_CLOSE, ERR_RETRY] {
        assert_eq!(
            Error::from_ngtcp2(code, None).classify_connection_error(),
            ConnectionErrorKind::SilentDrop
        );
    }
    for code in [ERR_DRAINING, ERR_CLOSING] {
        assert_eq!(
            Error::from_ngtcp2(code, None).classify_connection_error(),
            ConnectionErrorKind::Terminal
        );
    }
    assert_eq!(
        Error::from_ngtcp2(ERR_CRYPTO, None).classify_connection_error(),
        ConnectionErrorKind::TransportClose
    );
}

#[test]
fn test_classify_connection_error_other() {
    assert_eq!(
        Error::StreamDataBlocked(0).classify_connection_error(),
        ConnectionErrorKind::Ignore
    );
    assert_eq!(Error::StreamShutWr(0).classify_connection_error(), ConnectionErrorKind::Ignore);
    assert_eq!(Error::ConnectionClosed.classify_connection_error(), ConnectionErrorKind::Terminal);
    for err in [
        Error::InvalidArgument("x".to_string()),
        Error::Internal("x".to_string()),
    ] {
        assert_eq!(err.classify_connection_error(), ConnectionErrorKind::Internal);
    }
}

#[test]
fn test_is_retry_required() {
    assert!(Error::from_ngtcp2(ERR_RETRY, None).is_retry_required());

    for code in [ERR_DISCARD_PKT, ERR_DROP_CONN, ERR_IDLE_CLOSE, ERR_CRYPTO] {
        assert!(!Error::from_ngtcp2(code, None).is_retry_required());
    }
    for err in [
        Error::ConnectionClosed,
        Error::StreamDataBlocked(0),
        Error::StreamShutWr(0),
        Error::InvalidArgument("x".to_string()),
        Error::Internal("x".to_string()),
    ] {
        assert!(!err.is_retry_required());
    }
}

#[test]
fn engine_errors_show_message_and_code() {
    let err = Error::from_ngtcp2(NGTCP2_ERR_NOBUF, Some("ERR_NOBUF".to_string()));
    assert_eq!(err.display(), "ngtcp2 error: ERR_NOBUF (-202)");
    let err = Error::from_ngtcp2(i32::MIN, None);
    assert_eq!(err.display(), "ngtcp2 error: unknown error (-2147483648)");
}

#[test]
fn return_codes_become_results() {
    assert!(check_ngtcp2(0, None).is_ok());
    assert!(check_ngtcp2(7, None).is_ok());
    assert!(matches!(check_ngtcp2(-226, None), Err(Error::Ngtcp2(_, -226))));
    assert!(matches!(check_written(0, None), Ok(0)));
    assert!(matches!(check_written(1200, None), Ok(1200)));
    assert!(matches!(check_written(-232, None), Err(Error::Ngtcp2(_, -232))));
}

#[test]
fn a_retry_request_drops_the_connection_silently() {
    let err = Error::from_ngtcp2(ERR_RETRY, None);
    assert!(err.is_retry_required());
    assert_eq!(err.classify_connection_error(), ConnectionErrorKind::SilentDrop);
}
