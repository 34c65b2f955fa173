//! Connection IDs, streams, versions and paths.

use ngtcp2::rand::random_bytes;
use ngtcp2::types::{Duration, SocketAddr};

use ngtcp2::{
    ConnectionId, NGTCP2_PROTO_VER_V1, NGTCP2_PROTO_VER_V2, PacketInfo, PathInfo, QuicVersion,
    StreamDirection, StreamType,
};

#[test]
fn test_connection_id_new() {
    let cid = ConnectionId::new(&[1]).expect("a value");
    assert_eq!(cid.len(), 1);
    assert_eq!(cid.as_bytes(), &[1]);
    assert!(!cid.is_empty());
    let cid = ConnectionId::new(&[0xab; 20]).expect("a value");
    assert_eq!(cid.len(), 20);
}

#[test]
fn test_types_test_connection_id_empty() {
    let cid = ConnectionId::new(&[]).expect("a value");
    assert_eq!(cid.len(), 0);
    assert!(cid.is_empty());
    assert_eq!(ConnectionId::empty(), cid);
}

#[test]
fn test_connection_id_new_rejects_too_long() {
    assert!(
        ConnectionId::new(&[0u8; 21]).is_none()
    );
}

#[test]
fn test_connection_id_random() {
    let cid = ConnectionId::random(16).expect("a value");
    assert_eq!(cid.len(), 16);
    let other = ConnectionId::random(16).expect("a value");
    assert_ne!(cid, other);

    assert!(ConnectionId::random(0).is_none());
    assert!(ConnectionId::random(21).is_none());
}

#[test]
fn test_connection_id_equality() {
    let a = ConnectionId::new(&[1, 2, 3]).expect("a value");
    let b = ConnectionId::new(&[1, 2, 3]).expect("a value");
    let c = ConnectionId::new(&[1, 2, 4]).expect("a value");

    assert_eq!(a, b);
    assert_ne!(a, c);
    let mut map = std::collections::HashMap::new();
    map.insert(a, "first");
    assert_eq!(map.get(&b), Some(&"first"));
}

#[test]
fn test_connection_id_format() {
    let cid = ConnectionId::new(&[0x0a, 0x1b, 0xff]).expect("a value");
    assert_eq!(cid.display(), "0a1bff");
    assert_eq!(cid.debug(), "ConnectionId(0a1bff)");
}

#[test]
fn test_stream_type_from_stream_id() {
    assert_eq!(StreamType::from_stream_id(0), StreamType::Bidirectional);
    assert_eq!(StreamType::from_stream_id(1), StreamType::Bidirectional);
    assert_eq!(StreamType::from_stream_id(4), StreamType::Bidirectional);
    assert_eq!(StreamType::from_stream_id(2), StreamType::Unidirectional);
    assert_eq!(StreamType::from_stream_id(3), StreamType::Unidirectional);
    assert_eq!(StreamType::from_stream_id(6), StreamType::Unidirectional);
}

#[test]
fn test_stream_direction_from_stream_id() {
    assert_eq!(StreamDirection::from_stream_id(0), StreamDirection::ClientInitiated);
    assert_eq!(StreamDirection::from_stream_id(2), StreamDirection::ClientInitiated);
    assert_eq!(StreamDirection::from_stream_id(1), StreamDirection::ServerInitiated);
    assert_eq!(StreamDirection::from_stream_id(3), StreamDirection::ServerInitiated);
}

#[test]
fn test_quic_version_constants() {
    assert_eq!(NGTCP2_PROTO_VER_V1, 0x00000001, "QUIC v1");
    assert_eq!(NGTCP2_PROTO_VER_V2, 0x6b3343cf, "QUIC v2");
}

#[test]
fn test_quic_version_conversion() {
    assert_eq!(QuicVersion::from_u32(NGTCP2_PROTO_VER_V1), Some(QuicVersion::V1));
    assert_eq!(QuicVersion::from_u32(NGTCP2_PROTO_VER_V2), Some(QuicVersion::V2));
    assert_eq!(QuicVersion::from_u32(0xdeadbeef), None);

    assert_eq!(QuicVersion::default(), QuicVersion::V1);
    assert_eq!(QuicVersion::V1.as_u32(), NGTCP2_PROTO_VER_V1);
    assert_eq!(QuicVersion::V2.as_u32(), NGTCP2_PROTO_VER_V2);
}

#[test]
fn test_packet_info_default() {
    let info = PacketInfo::default();
    assert_eq!(info.ecn, 0);

    let info = PacketInfo { ecn: 3 };
    assert_eq!(info.ecn, 3);
}

#[test]
fn test_path_info() {
    let local: SocketAddr = SocketAddr::V4 { ip4: 0x7f00_0001, port: 50000 };
    let remote: SocketAddr = SocketAddr::V4 { ip4: 0x7f00_0001, port: 4433 };
    let path = PathInfo { local, remote };

    assert_eq!(path.local, local);
    assert_eq!(path.remote, remote);
}

#[test]
fn types_test_connection_id_empty() {
    let cid = ConnectionId::empty();
    assert_eq!(cid.len(), 0);
    assert!(cid.is_empty());
    assert_eq!(cid.as_bytes(), &[] as &[u8]);
}

#[test]
fn test_connection_id_new_accepts_empty() {
    let cid = ConnectionId::new(&[]).expect("a value");
    assert!(cid.is_empty());
}

#[test]
fn test_connection_id_random_rejects_empty() {
    assert!(ConnectionId::random(0).is_none());
}

#[test]
fn test_connection_id_rejects_too_long() {
    assert!(ConnectionId::new(&[0u8; 21]).is_none());
    assert!(ConnectionId::random(21).is_none());
}

#[test]
fn random_connection_ids_have_every_length() {
    for len in 1..=20 {
        assert_eq!(ConnectionId::random(len).expect("a value").len(), len);
    }
    // Sixteen zero bytes would mean that nothing was filled in.
    assert_ne!(ConnectionId::random(16).expect("a value").as_bytes(), &[0u8; 16]);
}

#[test]
fn clones_of_connection_ids_are_equal() {
    let cid = ConnectionId::new(&[9, 8, 7]).expect("a value");
    assert_eq!(cid.clone(), cid);
}

#[test]
fn stream_id_bits_name_all_four_kinds() {
    let kinds: Vec<(StreamType, StreamDirection)> = (0..4)
        .map(|id| (StreamType::from_stream_id(id), StreamDirection::from_stream_id(id)))
        .collect();
    assert_eq!(
        kinds,
        vec![
            (StreamType::Bidirectional, StreamDirection::ClientInitiated),
            (StreamType::Bidirectional, StreamDirection::ServerInitiated),
            (StreamType::Unidirectional, StreamDirection::ClientInitiated),
            (StreamType::Unidirectional, StreamDirection::ServerInitiated),
        ]
    );
}

#[test]
fn spans_are_counted_in_nanoseconds() {
    assert_eq!(Duration::from_secs(u64::MAX).as_nanos(), u64::MAX as u128 * 1_000_000_000);
    assert_eq!(Duration::from_millis(25).as_nanos(), 25_000_000);
    assert_eq!(Duration::from_nanos(7).as_nanos(), 7);
}

#[test]
fn random_bytes_can_always_be_had() {
    for len in [0, 1, 20, 1000] {
        assert_eq!(random_bytes(len).expect("a value").len(), len);
    }
    assert_ne!(random_bytes(32).expect("a value"), vec![0u8; 32]);
}

#[test]
fn a_random_connection_id_holds_what_was_drawn() {
    let cid = ConnectionId::from_random(3, Some(vec![1, 2, 3])).expect("a value");
    assert_eq!(cid.as_bytes(), &[1, 2, 3]);
    assert_eq!(ConnectionId::from_random(3, Some(vec![1, 2])), None);
    assert_eq!(ConnectionId::from_random(3, None), None);
    assert_eq!(ConnectionId::from_random(0, Some(vec![])), None);
    assert_eq!(ConnectionId::from_random(21, Some(vec![0; 21])), None);
}
