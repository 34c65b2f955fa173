//! Variable-length integers.


use ngtcp2::varint::{self, MAX};

#[test]
fn test_encoded_len_boundaries() {
    assert_eq!(varint::encoded_len(0), 1);
    assert_eq!(varint::encoded_len(63), 1);
    assert_eq!(varint::encoded_len(64), 2);
    assert_eq!(varint::encoded_len(16383), 2);
    assert_eq!(varint::encoded_len(16384), 4);
    assert_eq!(varint::encoded_len(1073741823), 4);
    assert_eq!(varint::encoded_len(1073741824), 8);
    assert_eq!(varint::encoded_len(MAX), 8);
}

#[test]
fn test_varint_roundtrip() {
    for value in [0u64, 1, 63, 64, 16383, 16384, 1073741823, 1073741824, MAX] {
        let mut buf = Vec::new();
        varint::encode_to_vec(value, &mut buf);
        assert_eq!(buf.len(), varint::encoded_len(value));

        let (decoded, consumed) = varint::decode(&buf).expect("a value");
        assert_eq!(decoded, value);
        assert_eq!(consumed, buf.len());
    }
}

#[test]
fn test_varint_encode_into_slice() {
    let mut buf = [0u8; 8];
    let written = varint::encode(&mut buf, 15293);
    assert_eq!(written, 2);
    assert_eq!(&buf[..2], &[0x7b, 0xbd]);
}

#[test]
fn test_varint_sequential_decode() {
    let mut buf = Vec::new();
    varint::encode_to_vec(37, &mut buf);
    varint::encode_to_vec(1_000_000, &mut buf);
    varint::encode_to_vec(MAX, &mut buf);

    let (v1, n1) = varint::decode(&buf).expect("a value");
    assert_eq!(v1, 37);
    let (v2, n2) = varint::decode(&buf[n1..]).expect("a value");
    assert_eq!(v2, 1_000_000);
    let (v3, n3) = varint::decode(&buf[n1 + n2..]).expect("a value");
    assert_eq!(v3, MAX);
    assert_eq!(n1 + n2 + n3, buf.len());
}

#[test]
fn test_varint_decode_empty() {
    assert!(varint::decode(&[]).is_none());
}

#[test]
fn test_varint_decode_truncated() {
    assert!(varint::decode(&[0x40]).is_none());
    assert!(varint::decode(&[0x80, 0x00, 0x00]).is_none());
    assert!(varint::decode(&[0xc0, 0x00, 0x00, 0x00, 0x00, 0x00, 0x00]).is_none());
}

#[test]
fn test_varint_wire_format() {
    let cases: &[(u64, &[u8])] = &[
        (0, &[0x00]),
        (37, &[0x25]),
        (15293, &[0x7b, 0xbd]),
        (494878333, &[0x9d, 0x7f, 0x3e, 0x7d]),
        (
            151288809941952652,
            &[0xc2, 0x19, 0x7c, 0x5e, 0xff, 0x14, 0xe8, 0x8c],
        ),
    ];

    for (value, expected) in cases {
        let mut buf = Vec::new();
        varint::encode_to_vec(*value, &mut buf);
        assert_eq!(&buf[..], *expected);

        let (decoded, consumed) = varint::decode(expected).expect("a value");
        assert_eq!(decoded, *value);
        assert_eq!(consumed, expected.len());
    }
}

#[test]
fn test_varint_decode_ignores_length_prefix() {
    assert_eq!(varint::decode(&[0x7f, 0xff]), Some((16383, 2)));
    assert_eq!(varint::decode(&[0xbf, 0xff, 0xff, 0xff]), Some((1073741823, 4)));
    assert_eq!(varint::decode(&[0xff, 0xff, 0xff, 0xff, 0xff, 0xff, 0xff, 0xff]), Some((MAX, 8)));
}

#[test]
fn longer_forms_decode_to_the_same_value() {
    assert_eq!(varint::decode(&[0x25]), Some((37, 1)));
    assert_eq!(varint::decode(&[0x40, 0x25]), Some((37, 2)));
    assert_eq!(varint::decode(&[0x80, 0, 0, 0x25]), Some((37, 4)));
    assert_eq!(varint::decode(&[0xc0, 0, 0, 0, 0, 0, 0, 0x25]), Some((37, 8)));
}

#[test]
fn encoding_leaves_the_rest_of_the_buffer_alone() {
    let mut buf = [0xaau8; 4];
    assert_eq!(varint::encode(&mut buf, 63), 1);
    assert_eq!(buf, [63, 0xaa, 0xaa, 0xaa]);
    let mut out = vec![1, 2];
    varint::encode_to_vec(64, &mut out);
    assert_eq!(out, vec![1, 2, 0x40, 0x40]);
}
