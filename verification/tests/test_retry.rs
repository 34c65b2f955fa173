//! Address validation tokens and Initial packets.

use ngtcp2::addr::{cid_from_raw, cid_to_raw, sockaddr_from_raw};
use ngtcp2::retry::{
    close_reason, corrupt, RetryPacket, RetryTokenInput, StatelessClose, TokenCheck, TokenVerdict,
    NGTCP2_CRYPTO_TOKEN_MAGIC_REGULAR, NGTCP2_CRYPTO_TOKEN_MAGIC_RETRY2,
    NGTCP2_TOKEN_TYPE_NEW_TOKEN, NGTCP2_TOKEN_TYPE_RETRY,
};
use ngtcp2::types::{Duration, SocketAddr};
use ngtcp2::{
    accept_initial, decode_packet_version, generate_new_token, generate_retry_token, token_kind,
    varint, verify_new_token, verify_retry_token, write_retry_packet,
    write_stateless_connection_close, AddressValidationToken, AddressValidationTokenKind,
    ConnectionId, Error, QuicVersion, RetrySecret, NGTCP2_PROTO_VER_V1, NGTCP2_PROTO_VER_V2,
    RETRY_SECRET_LEN, TRANSPORT_ERROR_INVALID_TOKEN,
};

fn initial(first: u8, version: u32, dcid: &[u8], scid: &[u8], token: &[u8], len: usize) -> Vec<u8> {
    let mut data = vec![first];
    data.extend_from_slice(&version.to_be_bytes());
    data.push(dcid.len() as u8);
    data.extend_from_slice(dcid);
    data.push(scid.len() as u8);
    data.extend_from_slice(scid);
    varint::encode_to_vec(token.len() as u64, &mut data);
    data.extend_from_slice(token);
    varint::encode_to_vec(1000, &mut data);
    data.resize(len, 0);
    data
}

#[test]
fn an_initial_is_accepted_with_all_its_fields() {
    for (first, version) in [(0xc3, NGTCP2_PROTO_VER_V1), (0xd3, NGTCP2_PROTO_VER_V2)] {
        let data = initial(first, version, &[1; 8], &[2; 16], &[3; 100], 1200);
        let accepted = accept_initial(&data).expect("a value");
        assert_eq!(accepted.version, version);
        assert_eq!(accepted.dcid.as_bytes(), &[1; 8]);
        assert_eq!(accepted.scid.as_bytes(), &[2; 16]);
        assert_eq!(accepted.token, vec![3; 100]);
        let info = decode_packet_version(&data).expect("a value");
        assert_eq!((info.version, info.dcid, info.scid), (version, accepted.dcid, accepted.scid));
    }
}

#[test]
fn other_packets_do_not_open_a_connection() {
    let v1 = NGTCP2_PROTO_VER_V1;
    // 0-RTT, Handshake and Retry packets, and a short header packet.
    for first in [0xd3, 0xe3, 0xf3, 0x43] {
        assert_eq!(accept_initial(&initial(first, v1, &[1; 8], &[2; 8], &[], 1200)), None);
    }
    assert_eq!(accept_initial(&initial(0xc3, NGTCP2_PROTO_VER_V2, &[1; 8], &[2; 8], &[], 1200)), None);
    assert_eq!(accept_initial(&initial(0xc3, 0, &[1; 8], &[2; 8], &[], 1200)), None);
    assert_eq!(accept_initial(&initial(0xc3, 0xdead_beef, &[1; 8], &[2; 8], &[], 1200)), None);
    assert_eq!(accept_initial(&initial(0xc3, v1, &[1; 8], &[2; 8], &[], 1199)), None);
    assert_eq!(accept_initial(&initial(0xc3, v1, &[1; 21], &[2; 8], &[], 1200)), None);
    assert_eq!(accept_initial(&initial(0xc3, v1, &[1; 8], &[2; 21], &[], 1200)), None);
    assert_eq!(accept_initial(&[]), None);
}

#[test]
fn a_short_destination_needs_a_token() {
    let v1 = NGTCP2_PROTO_VER_V1;
    assert_eq!(accept_initial(&initial(0xc0, v1, &[1; 7], &[2; 8], &[], 1200)), None);
    assert!(accept_initial(&initial(0xc0, v1, &[1; 8], &[2; 8], &[], 1200)).is_some());
    assert!(accept_initial(&initial(0xc0, v1, &[1; 7], &[2; 8], &[9], 1200)).is_some());
    assert!(accept_initial(&initial(0xc0, v1, &[1; 8], &[], &[], 1200)).is_some());
}

#[test]
fn a_token_that_reaches_beyond_the_datagram_is_refused() {
    let v1 = NGTCP2_PROTO_VER_V1;
    let fitting = initial(0xc0, v1, &[1; 8], &[2; 8], &[9; 1173], 1200);
    assert_eq!(accept_initial(&fitting).expect("a value").token.len(), 1173);
    // The token fills the datagram, and no room is left for the length field.
    let full = initial(0xc0, v1, &[1; 8], &[2; 8], &[9; 1175], 1200);
    assert_eq!(accept_initial(&full), None);
    let mut beyond = initial(0xc0, v1, &[1; 8], &[2; 8], &[], 1200);
    beyond[23..31].copy_from_slice(&[0xff; 8]);
    assert_eq!(accept_initial(&beyond), None);
}

#[test]
fn test_debug_redacts_secret() {
    let debug = RetrySecret::from_bytes([0x77; RETRY_SECRET_LEN]).debug();
    assert_eq!(debug, "RetrySecret(<redacted>)");
}

#[test]
fn retry_secrets_are_random() {
    let first = RetrySecret::generate().expect("a value");
    let second = RetrySecret::generate().expect("a value");
    assert!(first != second);
    assert_ne!(first.expose(), &[0; RETRY_SECRET_LEN]);
    assert_eq!(RetrySecret::from_bytes([0x77; 32]).expose(), &[0x77; 32]);
}

#[test]
fn test_token_kind() {
    assert_eq!(
        token_kind(&[NGTCP2_CRYPTO_TOKEN_MAGIC_RETRY2 as u8, 1, 2]),
        Some(AddressValidationTokenKind::Retry)
    );
    assert_eq!(
        token_kind(&[NGTCP2_CRYPTO_TOKEN_MAGIC_REGULAR as u8, 1, 2]),
        Some(AddressValidationTokenKind::NewToken)
    );
    assert_eq!(token_kind(&[0x00, 1, 2]), None);
    assert_eq!(token_kind(&[]), None);
}

#[test]
fn tokens_of_packets_know_their_kind() {
    let token = AddressValidationToken::from_packet(vec![0xb7, 1]).expect("a value");
    assert_eq!(token.as_bytes(), &[0xb7, 1]);
    assert_eq!(token.kind(), AddressValidationTokenKind::Retry);
    assert_eq!(token.as_raw_kind(), NGTCP2_TOKEN_TYPE_RETRY);
    let token = AddressValidationToken::from_packet(vec![0x36]).expect("a value");
    assert_eq!(token.as_raw_kind(), NGTCP2_TOKEN_TYPE_NEW_TOKEN);
    assert_eq!(AddressValidationToken::from_packet(vec![0x37]), None);
    assert_eq!(AddressValidationToken::from_packet(vec![]), None);
}

#[test]
fn tokens_are_taken_from_the_buffer() {
    let buf = [0xb7, 2, 3, 4];
    let token = generate_retry_token(3, &buf).expect("a value");
    assert_eq!(token.as_bytes(), &[0xb7, 2, 3]);
    assert_eq!(token.kind(), AddressValidationTokenKind::Retry);
    let token = generate_new_token(4, &buf).expect("a value");
    assert_eq!(token.as_bytes(), &buf);
    assert_eq!(token.kind(), AddressValidationTokenKind::NewToken);
    assert_eq!(
        generate_retry_token(-1, &buf).expect_err("an error").display(),
        "internal error: ngtcp2_crypto_generate_retry_token2 failed"
    );
    assert_eq!(
        generate_new_token(-1, &buf).expect_err("an error").display(),
        "internal error: ngtcp2_crypto_generate_regular_token failed"
    );
}

#[test]
fn verdicts_on_tokens_become_errors() {
    let odcid = ConnectionId::new(&[0xbb; 16]).expect("a value");
    let raw = cid_to_raw(&odcid);
    assert_eq!(verify_retry_token(TokenVerdict::Valid, &raw).expect("a value"), odcid);
    for (verdict, text) in [
        (
            TokenVerdict::Unreadable,
            "invalid argument: retry token is badly formatted or fails integrity check",
        ),
        (
            TokenVerdict::NotProven,
            "invalid argument: retry token does not prove the client address or has expired",
        ),
        (TokenVerdict::Failed, "invalid argument: retry token verification failed"),
    ] {
        assert_eq!(verify_retry_token(verdict, &raw).expect_err("an error").display(), text);
    }
    assert!(verify_new_token(0).is_ok());
    assert!(matches!(verify_new_token(-1), Err(Error::InvalidArgument(_))));
}

#[test]
fn lengths_of_written_packets() {
    assert!(matches!(write_retry_packet(100), Ok(100)));
    assert!(matches!(write_retry_packet(-1), Err(Error::Internal(_))));
    assert!(matches!(write_stateless_connection_close(80), Ok(80)));
    assert!(matches!(write_stateless_connection_close(-1), Err(Error::Internal(_))));
    assert_eq!(TRANSPORT_ERROR_INVALID_TOKEN, 0x0b);
}

#[test]
fn long_reasons_are_cut() {
    assert_eq!(close_reason(b"invalid address validation token").len(), 32);
    assert_eq!(close_reason(&[7; 64]), &[7; 64]);
    assert_eq!(close_reason(&[7; 65]), &[7; 64]);
}

#[test]
fn corruption_is_an_exclusive_or() {
    assert_eq!(corrupt(&[1, 2, 3], &[0xff]), vec![0xfe, 2, 3]);
    assert_eq!(corrupt(&[1], &[1, 5]), vec![0, 5]);
    assert_eq!(corrupt(&[], &[]), Vec::<u8>::new());
}

#[test]
fn tokens_are_bound_to_what_the_engine_is_given() {
    let addr = SocketAddr::V4 { ip4: 0x7f00_0001, port: 50000 };
    let retry_scid = ConnectionId::new(&[0xaa; 16]).expect("a value");
    let odcid = ConnectionId::new(&[0xbb; 8]).expect("a value");
    let input = RetryTokenInput::new(QuicVersion::V2, addr, &retry_scid, &odcid, 7);
    assert_eq!((input.version, input.ts), (NGTCP2_PROTO_VER_V2, 7));
    assert_eq!(sockaddr_from_raw(&input.client_addr), Some(addr));
    assert_eq!(cid_from_raw(&input.retry_scid), Some(retry_scid.clone()));
    assert_eq!(cid_from_raw(&input.original_dcid), Some(odcid));

    let check =
        TokenCheck::retry_token(QuicVersion::V1, addr, &retry_scid, Duration::from_secs(10), 9);
    assert_eq!((check.timeout, check.ts), (10_000_000_000, 9));
    let (version, dcid) = check.retry.expect("a value");
    assert_eq!((version, cid_from_raw(&dcid)), (NGTCP2_PROTO_VER_V1, Some(retry_scid)));
    let check = TokenCheck::new_token(addr, Duration::from_secs(1), 2);
    assert!(check.retry.is_none());
    assert_eq!((check.timeout, check.ts), (1_000_000_000, 2));
    assert_eq!(sockaddr_from_raw(&check.client_addr), Some(addr));
}

#[test]
fn answers_go_back_to_the_client() {
    let client = ConnectionId::new(&[0x11; 16]).expect("a value");
    let server = ConnectionId::new(&[0x22; 16]).expect("a value");
    let odcid = ConnectionId::new(&[0x33; 16]).expect("a value");
    let packet = RetryPacket::new(QuicVersion::V1, &client, &server, &odcid);
    assert_eq!(packet.version, 1);
    assert_eq!(cid_from_raw(&packet.dcid), Some(client.clone()));
    assert_eq!(cid_from_raw(&packet.scid), Some(server.clone()));
    assert_eq!(cid_from_raw(&packet.original_dcid), Some(odcid));

    let close = StatelessClose::new(QuicVersion::V1, &client, &server, 0x0b, &[b'x'; 100]);
    assert_eq!(close.error_code, 0x0b);
    assert_eq!(close.reason, vec![b'x'; 64]);
    assert_eq!(cid_from_raw(&close.dcid), Some(client));
    assert_eq!(cid_from_raw(&close.scid), Some(server));
}

#[test]
fn results_of_the_engine_become_verdicts() {
    assert_eq!(TokenVerdict::from_result(0, -1, -2), TokenVerdict::Valid);
    assert_eq!(TokenVerdict::from_result(-1, -1, -2), TokenVerdict::Unreadable);
    assert_eq!(TokenVerdict::from_result(-2, -1, -2), TokenVerdict::NotProven);
    assert_eq!(TokenVerdict::from_result(-3, -1, -2), TokenVerdict::Failed);
}

#[test]
fn a_connection_id_in_a_token_may_be_too_long() {
    let mut odcid = cid_to_raw(&ConnectionId::empty());
    odcid.datalen = 21;
    match verify_retry_token(TokenVerdict::Valid, &odcid) {
        Err(e) => assert_eq!(e.display(), "invalid argument: retry token contains an invalid cid"),
        Ok(_) => panic!("unexpected"),
    }
    assert!(verify_retry_token(TokenVerdict::Failed, &odcid).is_err());
}

#[test]
fn the_longest_tokens() {
    assert_eq!(ngtcp2::MAX_RETRY_TOKEN_LEN, 90);
    assert_eq!(ngtcp2::MAX_NEW_TOKEN_LEN, 41);
}
