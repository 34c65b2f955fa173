//! Stateless Reset.

use ngtcp2::reset::{random_len, stateless_reset_packet};
use ngtcp2::{
    write_stateless_reset, Error, StatelessResetSecret, StatelessResetToken,
    MIN_STATELESS_RESET_SIZE, STATELESS_RESET_SECRET_LEN, STATELESS_RESET_TOKEN_LEN,
};

fn token(byte: u8) -> StatelessResetToken {
    StatelessResetSecret::token(0, [byte; STATELESS_RESET_TOKEN_LEN]).expect("a value")
}

#[test]
fn test_secret_generate() {
    let a = StatelessResetSecret::generate().expect("a value");
    let b = StatelessResetSecret::generate().expect("a value");
    assert!(a != b);
}

#[test]
fn test_debug_redacts_secret_material() {
    let secret = StatelessResetSecret::from_bytes([0xab; STATELESS_RESET_SECRET_LEN]);
    let token = token(0xcd);

    let secret_debug = secret.debug();
    assert!(!secret_debug.contains("ab"));

    let token_debug = token.debug();
    assert!(!token_debug.to_lowercase().contains(&hex(&token.as_bytes()[..4])));
}

fn hex(bytes: &[u8]) -> String {
    bytes.iter().map(|b| format!("{b:02x}")).collect()
}

#[test]
fn tokens_follow_the_result_of_the_derivation() {
    assert!(StatelessResetSecret::token(-1, [1; 16]).is_none());
    assert_eq!(token(7).as_bytes(), &[7; 16]);
    assert_eq!(StatelessResetSecret::from_bytes([5; 32]).expose(), &[5; 32]);
}

#[test]
fn test_write_stateless_reset_packet() {
    let token = token(0x5a);

    let mut buf = [0u8; 1200];
    let written = write_stateless_reset(&mut buf, &token, 1200).expect("a value");

    assert!(written > STATELESS_RESET_TOKEN_LEN);
    assert_eq!(&buf[written - STATELESS_RESET_TOKEN_LEN..written], token.as_bytes());
    assert_eq!(buf[0] >> 6, 0b01);
    assert!(written <= 1200);
}

#[test]
fn test_write_stateless_reset_is_shorter_than_trigger() {
    let token = token(0x44);

    let mut buf = [0u8; 1200];
    for received_len in [MIN_STATELESS_RESET_SIZE, 30, 43, 100] {
        let written = write_stateless_reset(&mut buf, &token, received_len).expect("a value");
        assert!(written > 0);
        assert!(written <= received_len);
    }
}

#[test]
fn test_write_stateless_reset_rejects_short_packet() {
    let token = token(0x55);

    let mut buf = [0u8; 1200];
    for received_len in [0, 1, 21, MIN_STATELESS_RESET_SIZE - 1] {
        let written = write_stateless_reset(&mut buf, &token, received_len).expect("a value");
        assert_eq!(written, 0);
    }
}

#[test]
fn test_write_stateless_reset_rejects_small_buffer() {
    let token = token(0x66);

    let mut buf = [0u8; 8];
    let err = write_stateless_reset(&mut buf, &token, 1200).expect_err("an error");
    assert!(matches!(err, Error::Ngtcp2(_, _)));
    assert_eq!(err.display(), "ngtcp2 error: ERR_NOBUF (-202)");
    assert_eq!(buf, [0u8; 8]);
}

#[test]
fn a_small_buffer_takes_fewer_random_bytes() {
    let token = token(0x77);
    let mut buf = [0u8; 21];
    assert!(matches!(write_stateless_reset(&mut buf, &token, 1200), Ok(21)));
    assert_eq!(&buf[5..], token.as_bytes());
    let mut buf = [0u8; 20];
    assert!(write_stateless_reset(&mut buf, &token, 1200).is_err());
}

#[test]
fn the_number_of_random_bytes_is_bounded() {
    assert_eq!(MIN_STATELESS_RESET_SIZE, 22);
    assert_eq!(random_len(21), None);
    assert_eq!(random_len(22), Some(5));
    assert_eq!(random_len(42), Some(25));
    assert_eq!(random_len(43), Some(26));
    assert_eq!(random_len(usize::MAX), Some(26));
}

#[test]
fn a_reset_packet_has_exact_bytes() {
    assert_eq!(
        stateless_reset_packet(vec![0xff, 2, 3, 4, 5], &token(9)),
        vec![0x7f, 2, 3, 4, 5, 9, 9, 9, 9, 9, 9, 9, 9, 9, 9, 9, 9, 9, 9, 9, 9]
    );
    assert_eq!(stateless_reset_packet(vec![0], &token(9))[0], 0x40);
}
