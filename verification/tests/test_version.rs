//! Versions and Version Negotiation.

use ngtcp2::version::version_negotiation_packet;

use ngtcp2::{
    ConnectionId, LongHeaderType, MIN_INITIAL_DATAGRAM_SIZE, NGTCP2_PROTO_VER_V1,
    NGTCP2_PROTO_VER_V2, QuicVersion, decode_packet_version, long_header_type,
    write_version_negotiation,
};
const SUPPORTED: [QuicVersion; 2] = [QuicVersion::V1, QuicVersion::V2];

fn initial_first_byte(version: u32) -> u8 {
    let type_bits = if version == NGTCP2_PROTO_VER_V2 {
        0x1
    } else {
        0x0
    };
    0x80 | 0x40 | (type_bits << 4)
}

fn make_long_header(
    version: u32,
    first_byte: u8,
    dcid: &[u8],
    scid: &[u8],
    total_len: usize,
) -> Vec<u8> {
    let mut data = vec![0u8; total_len];
    data[0] = first_byte;
    data[1..5].copy_from_slice(&version.to_be_bytes());
    data[5] = dcid.len() as u8;
    data[6..6 + dcid.len()].copy_from_slice(dcid);
    let scid_offset = 6 + dcid.len();
    data[scid_offset] = scid.len() as u8;
    data[scid_offset + 1..scid_offset + 1 + scid.len()].copy_from_slice(scid);
    data
}

fn make_initial(version: u32, dcid: &[u8], scid: &[u8]) -> Vec<u8> {
    make_long_header(
        version,
        initial_first_byte(version),
        dcid,
        scid,
        MIN_INITIAL_DATAGRAM_SIZE,
    )
}

#[test]
fn test_quic_version_roundtrip() {
    assert_eq!(QuicVersion::V1.as_u32(), NGTCP2_PROTO_VER_V1);
    assert_eq!(QuicVersion::V2.as_u32(), NGTCP2_PROTO_VER_V2);
    assert_eq!(QuicVersion::from_u32(NGTCP2_PROTO_VER_V1), Some(QuicVersion::V1));
    assert_eq!(QuicVersion::from_u32(NGTCP2_PROTO_VER_V2), Some(QuicVersion::V2));
    assert_eq!(QuicVersion::from_u32(0xdead_beef), None);
}

#[test]
fn test_decode_packet_version_extracts_cids() {
    let dcid = [0x11u8; 8];
    let scid = [0x22u8; 16];

    for version in [QuicVersion::V1, QuicVersion::V2] {
        let data = make_initial(version.as_u32(), &dcid, &scid);
        let info = decode_packet_version(&data)
            .unwrap_or_else(|| panic!("{version:?} cannot be parsed"));

        assert_eq!(info.version, version.as_u32());
        assert_eq!(info.dcid.as_bytes(), &dcid, "DCID");
        assert_eq!(info.scid.as_bytes(), &scid, "SCID");
    }
}

#[test]
fn test_decode_packet_version_rejects_short_header() {
    let mut data = vec![0x40u8; MIN_INITIAL_DATAGRAM_SIZE];
    data[1] = 16;
    data[2..18].copy_from_slice(&[0xaa; 16]);

    assert!(decode_packet_version(&data).is_none());
}

#[test]
fn test_decode_packet_version_rejects_version_negotiation_packet() {
    let data = make_initial(0, &[0x11; 8], &[0x22; 8]);

    assert!(decode_packet_version(&data).is_none());
}

#[test]
fn test_decode_packet_version_rejects_small_datagram_for_unknown_version() {
    let data = make_long_header(0xdead_beef, 0xc0, &[0x11; 8], &[0x22; 8], 100);

    assert!(decode_packet_version(&data).is_none());
}

#[test]
fn test_decode_packet_version_accepts_small_datagram_for_known_version() {
    let data = make_long_header(NGTCP2_PROTO_VER_V1, 0xc0, &[0x11; 8], &[0x22; 8], 100);

    let info = decode_packet_version(&data).expect("a value");
    assert_eq!(info.version, NGTCP2_PROTO_VER_V1);
}

#[test]
fn test_decode_packet_version_rejects_truncated_cids() {
    let mut data = vec![0u8; 32];
    data[0] = 0xc0;
    data[1..5].copy_from_slice(&NGTCP2_PROTO_VER_V1.to_be_bytes());
    data[5] = 200;

    assert!(decode_packet_version(&data).is_none());
}

#[test]
fn test_decode_packet_version_rejects_empty() {
    assert!(decode_packet_version(&[]).is_none());
}

#[test]
fn test_write_version_negotiation_packet_format() {
    let client_dcid = ConnectionId::new(&[0x11; 8]).expect("a value");
    let client_scid = ConnectionId::new(&[0x22; 16]).expect("a value");

    let mut buf = [0u8; 1500];
    let written = write_version_negotiation(&mut buf, &client_scid, &client_dcid, &SUPPORTED)
        .expect("a value");
    assert_ne!(buf[0] & 0x80, 0);
    assert_eq!(&buf[1..5], &[0, 0, 0, 0]);
    let dcid_len = buf[5] as usize;
    assert_eq!(dcid_len, client_scid.len());
    assert_eq!(&buf[6..6 + dcid_len], client_scid.as_bytes());
    let scid_offset = 6 + dcid_len;
    let scid_len = buf[scid_offset] as usize;
    assert_eq!(scid_len, client_dcid.len());
    assert_eq!(&buf[scid_offset + 1..scid_offset + 1 + scid_len], client_dcid.as_bytes());
    let mut versions = Vec::new();
    let mut pos = scid_offset + 1 + scid_len;
    while pos + 4 <= written {
        versions.push(u32::from_be_bytes([
            buf[pos],
            buf[pos + 1],
            buf[pos + 2],
            buf[pos + 3],
        ]));
        pos += 4;
    }
    assert_eq!(versions, vec![NGTCP2_PROTO_VER_V1, NGTCP2_PROTO_VER_V2]);
    assert_eq!(pos, written);
}

#[test]
fn test_version_negotiation_packet_is_not_renegotiated() {
    let client_dcid = ConnectionId::new(&[0x11; 8]).expect("a value");
    let client_scid = ConnectionId::new(&[0x22; 16]).expect("a value");

    let mut buf = vec![0u8; MIN_INITIAL_DATAGRAM_SIZE];
    let written = write_version_negotiation(&mut buf, &client_scid, &client_dcid, &SUPPORTED)
        .expect("a value");

    assert!(decode_packet_version(&buf[..written]).is_none());
}

#[test]
fn test_write_version_negotiation_rejects_empty_versions() {
    let client_dcid = ConnectionId::new(&[0x11; 8]).expect("a value");
    let client_scid = ConnectionId::new(&[0x22; 16]).expect("a value");

    let mut buf = [0u8; 1500];
    let err = write_version_negotiation(&mut buf, &client_scid, &client_dcid, &[])
        .expect_err("an error");
    assert!(matches!(err, ngtcp2::Error::InvalidArgument(_)));
}

#[test]
fn test_write_version_negotiation_rejects_small_buffer() {
    let client_dcid = ConnectionId::new(&[0x11; 8]).expect("a value");
    let client_scid = ConnectionId::new(&[0x22; 16]).expect("a value");
    let mut buf = [0u8; 8];
    let err = write_version_negotiation(&mut buf, &client_scid, &client_dcid, &SUPPORTED)
        .expect_err("an error");
    assert!(matches!(err, ngtcp2::Error::Ngtcp2(_, _)));
}

#[test]
fn test_long_header_type_is_version_dependent() {
    assert_eq!(long_header_type(NGTCP2_PROTO_VER_V1, 0xc0), Some(LongHeaderType::Initial));
    assert_eq!(long_header_type(NGTCP2_PROTO_VER_V1, 0xd0), Some(LongHeaderType::ZeroRtt));
    assert_eq!(long_header_type(NGTCP2_PROTO_VER_V1, 0xe0), Some(LongHeaderType::Handshake));
    assert_eq!(long_header_type(NGTCP2_PROTO_VER_V1, 0xf0), Some(LongHeaderType::Retry));
    assert_eq!(long_header_type(NGTCP2_PROTO_VER_V2, 0xd0), Some(LongHeaderType::Initial));
    assert_eq!(long_header_type(NGTCP2_PROTO_VER_V2, 0xe0), Some(LongHeaderType::ZeroRtt));
    assert_eq!(long_header_type(NGTCP2_PROTO_VER_V2, 0xf0), Some(LongHeaderType::Handshake));
    assert_eq!(long_header_type(NGTCP2_PROTO_VER_V2, 0xc0), Some(LongHeaderType::Retry));
    assert_ne!(
        long_header_type(NGTCP2_PROTO_VER_V1, 0xd0),
        long_header_type(NGTCP2_PROTO_VER_V2, 0xd0)
    );
}

#[test]
fn test_long_header_type_rejects_unknown_version() {
    assert_eq!(long_header_type(0xdead_beef, 0xc0), None);
    assert_eq!(long_header_type(0, 0xc0), None);
}

#[test]
fn test_decode_packet_version_sets_header_type() {
    let dcid = [0x11u8; 8];
    let scid = [0x22u8; 8];
    let data = make_initial(NGTCP2_PROTO_VER_V2, &dcid, &scid);
    assert_eq!(data[0], 0xd0);
    let info = decode_packet_version(&data).expect("a value");
    assert!(info.is_initial());
    let mut data = make_initial(NGTCP2_PROTO_VER_V1, &dcid, &scid);
    data[0] = 0xd0;
    let info = decode_packet_version(&data).expect("a value");
    assert!(!info.is_initial());
    assert_eq!(info.header_type, Some(LongHeaderType::ZeroRtt));
    let data = make_initial(0xdead_beef, &dcid, &scid);
    let info = decode_packet_version(&data).expect("a value");
    assert_eq!(info.header_type, None);
    assert!(!info.is_initial());
}

#[test]
fn negotiation_packet_has_exact_bytes() {
    let client_dcid = ConnectionId::new(&[0x11, 0x12]).expect("a value");
    let client_scid = ConnectionId::new(&[0x22]).expect("a value");
    assert_eq!(
        version_negotiation_packet(0xab, &client_scid, &client_dcid, &SUPPORTED),
        vec![
            0xab, 0, 0, 0, 0, 1, 0x22, 2, 0x11, 0x12, 0, 0, 0, 1, 0x6b, 0x33, 0x43, 0xcf,
        ]
    );
    assert_eq!(version_negotiation_packet(0x2b, &client_scid, &client_dcid, &SUPPORTED)[0], 0xab);
}

#[test]
fn negotiation_fits_a_buffer_of_its_own_length() {
    let cid = ConnectionId::new(&[0x11; 8]).expect("a value");
    let mut buf = [0u8; 27];
    assert!(matches!(
        write_version_negotiation(&mut buf, &cid, &cid, &[QuicVersion::V1]),
        Ok(27)
    ));
    assert_eq!(&buf[23..], &[0, 0, 0, 1]);
    let mut small = [0x55u8; 26];
    match write_version_negotiation(&mut small, &cid, &cid, &[QuicVersion::V1]) {
        Err(ngtcp2::Error::Ngtcp2(message, code)) => {
            assert_eq!(code, -202);
            assert_eq!(message, "ERR_NOBUF");
        }
        other => panic!("unexpected: {other:?}"),
    }
    assert_eq!(small, [0x55u8; 26]);
}

#[test]
fn unused_bits_of_negotiation_packets_vary() {
    let cid = ConnectionId::new(&[0x11; 8]).expect("a value");
    let mut seen = std::collections::BTreeSet::new();
    for _ in 0..200 {
        let mut buf = [0u8; 40];
        write_version_negotiation(&mut buf, &cid, &cid, &SUPPORTED).expect("a value");
        assert!(buf[0] >= 0x80);
        seen.insert(buf[0]);
    }
    assert!(seen.len() > 1);
}

#[test]
fn connection_ids_must_have_one_to_twenty_bytes() {
    let packet = |dcid: &[u8], scid: &[u8]| make_initial(NGTCP2_PROTO_VER_V1, dcid, scid);
    assert!(decode_packet_version(&packet(&[1; 20], &[2; 1])).is_some());
    assert!(decode_packet_version(&packet(&[1; 21], &[2; 8])).is_none());
    assert!(decode_packet_version(&packet(&[1; 8], &[2; 21])).is_none());
    assert!(decode_packet_version(&packet(&[], &[2; 8])).is_none());
    assert!(decode_packet_version(&packet(&[1; 8], &[])).is_none());
}

#[test]
fn a_packet_that_ends_within_its_source_connection_id_is_refused() {
    let data = make_long_header(NGTCP2_PROTO_VER_V1, 0xc0, &[1; 8], &[2; 8], 23);
    assert!(decode_packet_version(&data).is_some());
    assert!(decode_packet_version(&data[..22]).is_none());
}
