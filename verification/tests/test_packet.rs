//! Packets that share a datagram.

use ngtcp2::packet::{packet_len, split_packets};
use ngtcp2::varint;

fn varint_bytes(n: u64) -> Vec<u8> {
    let mut buf = vec![0u8; varint::encoded_len(n)];
    varint::encode(&mut buf, n);
    buf
}

fn short_packet(len: usize) -> Vec<u8> {
    let mut packet = vec![0u8; len];
    packet[0] = 0x40;
    packet
}

fn long_packet(first: u8, payload_len: usize) -> Vec<u8> {
    let mut packet = vec![first];
    packet.extend_from_slice(&1u32.to_be_bytes());
    packet.push(8);
    packet.extend(std::iter::repeat_n(0x11, 8));
    packet.push(0);
    packet.extend_from_slice(&varint_bytes(payload_len as u64));
    packet.extend(std::iter::repeat_n(0x33, payload_len));
    packet
}

#[test]
fn test_split_packets_short_header() {
    let packet = short_packet(30);
    let packets = split_packets(&packet);
    assert_eq!(packets.len(), 1);
    assert_eq!(packets[0], &packet[..]);
}

#[test]
fn test_split_packets_handshake_and_short() {
    let handshake = long_packet(0xe3, 16);
    let short = short_packet(21);

    let mut buf = handshake.clone();
    buf.extend_from_slice(&short);

    let packets = split_packets(&buf);
    assert_eq!(packets.len(), 2);
    assert_eq!(packets[0], &handshake[..]);
    assert_eq!(packets[1], &short[..]);
}

#[test]
fn test_split_packets_initial_with_token() {
    let mut initial = Vec::new();
    initial.push(0xc3);
    initial.extend_from_slice(&1u32.to_be_bytes());
    initial.push(8);
    initial.extend(std::iter::repeat_n(0x11, 8));
    initial.push(0);
    initial.extend_from_slice(&varint_bytes(4));
    initial.extend(std::iter::repeat_n(0x44, 4));
    initial.extend_from_slice(&varint_bytes(16));
    initial.extend(std::iter::repeat_n(0x33, 16));
    let short = short_packet(20);

    let mut buf = initial.clone();
    buf.extend_from_slice(&short);

    let packets = split_packets(&buf);
    assert_eq!(packets.len(), 2);
    assert_eq!(packets[0], &initial[..]);
    assert_eq!(packets[1], &short[..]);
}

#[test]
fn test_split_packets_retry() {
    let retry = long_packet(0xf3, 16);
    let packets = split_packets(&retry);
    assert_eq!(packets.len(), 1);
    assert_eq!(packets[0], &retry[..]);
}

#[test]
fn test_split_packets_version_negotiation() {
    let mut buf = vec![0x80];
    buf.extend_from_slice(&0u32.to_be_bytes());
    buf.push(8);
    buf.extend(std::iter::repeat_n(0x11, 8));
    buf.push(0);
    buf.extend_from_slice(&[0x00, 0x00, 0x00, 0x01]);

    let packets = split_packets(&buf);
    assert_eq!(packets.len(), 1);
    assert_eq!(packets[0], &buf[..]);
}

#[test]
fn test_split_packets_truncated() {
    let handshake = long_packet(0xe3, 16);
    let truncated = &handshake[..handshake.len() - 4];
    let packets = split_packets(truncated);
    assert_eq!(packets.len(), 1);
    assert_eq!(packets[0], truncated);
}

#[test]
fn test_split_packets_empty() {
    assert!(split_packets(&[]).is_empty());
}

fn v2_packet(first: u8, token: Option<&[u8]>, payload_len: usize) -> Vec<u8> {
    let mut packet = vec![first];
    packet.extend_from_slice(&0x6b3343cfu32.to_be_bytes());
    packet.push(8);
    packet.extend(std::iter::repeat_n(0x11, 8));
    packet.push(0);
    if let Some(token) = token {
        packet.extend_from_slice(&varint_bytes(token.len() as u64));
        packet.extend_from_slice(token);
    }
    packet.extend_from_slice(&varint_bytes(payload_len as u64));
    packet.extend(std::iter::repeat_n(0x33, payload_len));
    packet
}

#[test]
fn a_v2_handshake_packet_is_parted_from_the_short_header_packet() {
    let buf = [0xf0, 0x6b, 0x33, 0x43, 0xcf, 0, 0, 2, 0xaa, 0xbb, 0x40, 0x00];
    assert_eq!(split_packets(&buf), vec![&buf[..10], &buf[10..12]]);
}

#[test]
fn the_type_bits_of_v2_decide_on_the_token() {
    let initial = v2_packet(0xd3, Some(&[0x44; 4]), 16);
    let zero_rtt = v2_packet(0xe3, None, 7);
    let handshake = v2_packet(0xf3, None, 9);
    let mut buf = initial.clone();
    buf.extend_from_slice(&zero_rtt);
    buf.extend_from_slice(&handshake);
    buf.extend_from_slice(&short_packet(20));
    let packets = split_packets(&buf);
    assert_eq!(packets.len(), 4);
    assert_eq!(packets[0], &initial[..]);
    assert_eq!(packets[1], &zero_rtt[..]);
    assert_eq!(packets[2], &handshake[..]);
}

#[test]
fn a_v2_retry_stands_alone() {
    let mut buf = v2_packet(0xc3, None, 4);
    buf.extend_from_slice(&short_packet(5));
    assert_eq!(packet_len(&buf), Some(buf.len()));
    assert_eq!(split_packets(&buf), vec![&buf[..]]);
}

#[test]
fn a_packet_of_an_unknown_version_is_measured_like_v1() {
    let buf = [0xe0, 0xff, 0, 0, 0x1d, 0, 0, 2, 0xaa, 0xbb, 0x40, 0];
    assert_eq!(packet_len(&buf), Some(10));
    assert_eq!(split_packets(&buf), vec![&buf[..10], &buf[10..]]);
}

#[test]
fn packets_of_a_datagram_join_to_the_datagram() {
    let mut buf = long_packet(0xe3, 5);
    buf.extend_from_slice(&long_packet(0xd0, 70));
    buf.extend_from_slice(&short_packet(9));
    let packets = split_packets(&buf);
    assert_eq!(packets.len(), 3);
    assert_eq!(packets.concat(), buf);
    assert_eq!(packet_len(&buf), Some(packets[0].len()));
    assert_eq!(packet_len(packets[2]), Some(9));
}

#[test]
fn a_zero_length_field_ends_the_packet_at_once() {
    let mut buf = long_packet(0xe3, 0);
    let first = buf.len();
    buf.extend_from_slice(&short_packet(3));
    let packets = split_packets(&buf);
    assert_eq!(packets.len(), 2);
    assert_eq!(packets[0].len(), first);
}
