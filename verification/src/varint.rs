//! QUIC variable-length integers (RFC 9000 Section 16).
//!
//! The two most significant bits of the first byte give the total length.
//!
//! | bits | length | values |
//! | --- | --- | --- |
//! | `00` | 1 byte | 0 to 63 |
//! | `01` | 2 bytes | 0 to 16383 |
//! | `10` | 4 bytes | 0 to 1073741823 |
//! | `11` | 8 bytes | 0 to 4611686018427387903 |

use vstd::prelude::*;

use crate::bytes::{lemma_be_roundtrip, lemma_be_value_bound, lemma_be_value_first, lemma_pow256_values};

verus! {

/// The largest value that a variable-length integer can hold (2^62 - 1).
pub const MAX: u64 = 0x3fff_ffff_ffff_ffff;

/// The number of bytes that the shortest form of `n` takes.
pub open spec fn len_of(n: nat) -> nat {
    if n < 64 {
        1
    } else if n < 16384 {
        2
    } else if n < 1073741824 {
        4
    } else {
        8
    }
}

/// The two-bit length code of a form of `len` bytes.
pub open spec fn code_of(len: nat) -> nat {
    if len == 1 {
        0
    } else if len == 2 {
        1
    } else if len == 4 {
        2
    } else {
        3
    }
}

/// The length that the two-bit code in the first byte `first` announces.
pub open spec fn announced_len(first: u8) -> nat {
    if first < 64 {
        1
    } else if first < 128 {
        2
    } else if first < 192 {
        4
    } else {
        8
    }
}

/// The shortest form of `n`: its big-endian bytes with the length code on top.
pub open spec fn encoding(n: nat) -> Seq<u8> {
    let plain = crate::bytes::be_bytes(n, len_of(n));
    plain.update(0, (plain[0] + 64 * code_of(len_of(n))) as u8)
}

/// The value and the length of the variable-length integer that `s` starts with.
pub open spec fn decoding(s: Seq<u8>) -> Option<(nat, nat)> {
    if s.len() == 0 || s.len() < announced_len(s[0]) {
        None
    } else {
        let len = announced_len(s[0]);
        Some((crate::bytes::be_value(s.take(len as int).update(0, (s[0] % 64) as u8)), len))
    }
}

/// The first byte of the big-endian form of an encodable value leaves room for the length code.
proof fn lemma_plain_first(n: nat)
    requires
        n <= MAX,
    ensures
        crate::bytes::be_bytes(n, len_of(n)).len() == len_of(n),
        crate::bytes::be_value(crate::bytes::be_bytes(n, len_of(n))) == n,
        crate::bytes::be_bytes(n, len_of(n))[0] < 64,
{
    let len = len_of(n);
    let plain = crate::bytes::be_bytes(n, len);
    lemma_pow256_values();
    lemma_be_roundtrip(n, len);
    lemma_be_value_first(plain);
    let p = crate::bytes::pow256((len - 1) as nat);
    assert(n < 64 * p);
    assert(plain[0] as nat * p <= n);
    assert(plain[0] < 64) by (nonlinear_arith)
        requires
            plain[0] as nat * p < 64 * p,
    ;
}

/// Four bytes in big-endian order.
proof fn lemma_four_bytes(n: nat)
    ensures
        crate::bytes::be_bytes(n, 4) == seq![
            (n / 0x100_0000 % 0x100) as u8,
            (n / 0x1_0000 % 0x100) as u8,
            (n / 0x100 % 0x100) as u8,
            (n % 0x100) as u8,
        ],
{
    vstd::arithmetic::div_mod::lemma_div_denominator(n as int, 0x100, 0x100);
    vstd::arithmetic::div_mod::lemma_div_denominator(n as int, 0x1_0000, 0x100);
    reveal_with_fuel(crate::bytes::be_bytes, 5);
    assert(crate::bytes::be_bytes(n, 4) =~= seq![
        (n / 0x100_0000 % 0x100) as u8,
        (n / 0x1_0000 % 0x100) as u8,
        (n / 0x100 % 0x100) as u8,
        (n % 0x100) as u8,
    ]);
}

/// Eight bytes in big-endian order are twice four.
proof fn lemma_eight_bytes(n: nat)
    ensures
        crate::bytes::be_bytes(n, 8) == crate::bytes::be_bytes(n / 0x1_0000_0000, 4)
            + crate::bytes::be_bytes(n, 4),
{
    let q1 = n / 0x100;
    let q2 = n / 0x1_0000;
    let q3 = n / 0x100_0000;
    let q4 = n / 0x1_0000_0000;
    vstd::arithmetic::div_mod::lemma_div_denominator(n as int, 0x100, 0x100);
    vstd::arithmetic::div_mod::lemma_div_denominator(n as int, 0x1_0000, 0x100);
    vstd::arithmetic::div_mod::lemma_div_denominator(n as int, 0x100_0000, 0x100);
    assert(crate::bytes::be_bytes(q3, 5) == crate::bytes::be_bytes(q4, 4).push((q3 % 256) as u8));
    assert(crate::bytes::be_bytes(q2, 6) == crate::bytes::be_bytes(q3, 5).push((q2 % 256) as u8));
    assert(crate::bytes::be_bytes(q1, 7) == crate::bytes::be_bytes(q2, 6).push((q1 % 256) as u8));
    assert(crate::bytes::be_bytes(n, 8) == crate::bytes::be_bytes(q1, 7).push((n % 256) as u8));
    lemma_four_bytes(n);
    assert(crate::bytes::be_bytes(n, 8) =~= crate::bytes::be_bytes(q4, 4)
        + crate::bytes::be_bytes(n, 4));
}

/// The four forms byte by byte (RFC 9000 Section 16): the value in big-endian order, in the fewest of 1,
/// 2, 4 and 8 bytes that leave the two top bits free, with 0, 1, 2 or 3 in those bits.
pub proof fn lemma_wire_form(n: nat)
    requires
        n <= 0x3fff_ffff_ffff_ffff,
    ensures
        n <= 63 ==> encoding(n) == seq![n as u8],
        63 < n <= 16383 ==> encoding(n) == seq![(0x40 + n / 0x100) as u8, (n % 0x100) as u8],
        16383 < n <= 1073741823 ==> encoding(n) == seq![
            (0x80 + n / 0x100_0000) as u8,
            (n / 0x1_0000 % 0x100) as u8,
            (n / 0x100 % 0x100) as u8,
            (n % 0x100) as u8,
        ],
        1073741823 < n ==> encoding(n) == seq![
            (0xc0 + n / 0x100_0000_0000_0000) as u8,
            (n / 0x1_0000_0000_0000 % 0x100) as u8,
            (n / 0x100_0000_0000 % 0x100) as u8,
            (n / 0x1_0000_0000 % 0x100) as u8,
            (n / 0x100_0000 % 0x100) as u8,
            (n / 0x1_0000 % 0x100) as u8,
            (n / 0x100 % 0x100) as u8,
            (n % 0x100) as u8,
        ],
{
    let plain = crate::bytes::be_bytes(n, len_of(n));
    if n <= 63 {
        reveal_with_fuel(crate::bytes::be_bytes, 2);
        assert(plain =~= seq![n as u8]);
        assert(encoding(n) =~= seq![n as u8]);
    } else if n <= 16383 {
        reveal_with_fuel(crate::bytes::be_bytes, 3);
        assert(plain =~= seq![(n / 0x100) as u8, (n % 0x100) as u8]);
        assert(encoding(n) =~= seq![(0x40 + n / 0x100) as u8, (n % 0x100) as u8]);
    } else if n <= 1073741823 {
        lemma_four_bytes(n);
        assert(encoding(n) =~= seq![
            (0x80 + n / 0x100_0000) as u8,
            (n / 0x1_0000 % 0x100) as u8,
            (n / 0x100 % 0x100) as u8,
            (n % 0x100) as u8,
        ]);
    } else {
        let high = n / 0x1_0000_0000;
        lemma_four_bytes(n);
        lemma_four_bytes(high);
        lemma_eight_bytes(n);
        vstd::arithmetic::div_mod::lemma_div_denominator(n as int, 0x1_0000_0000, 0x100);
        vstd::arithmetic::div_mod::lemma_div_denominator(n as int, 0x1_0000_0000, 0x1_0000);
        vstd::arithmetic::div_mod::lemma_div_denominator(n as int, 0x1_0000_0000, 0x100_0000);
        assert(high / 0x100_0000 < 0x40);
        assert(encoding(n) =~= seq![
            (0xc0 + n / 0x100_0000_0000_0000) as u8,
            (n / 0x1_0000_0000_0000 % 0x100) as u8,
            (n / 0x100_0000_0000 % 0x100) as u8,
            (n / 0x1_0000_0000 % 0x100) as u8,
            (n / 0x100_0000 % 0x100) as u8,
            (n / 0x1_0000 % 0x100) as u8,
            (n / 0x100 % 0x100) as u8,
            (n % 0x100) as u8,
        ]);
    }
}

/// One byte more multiplies the value by 256 and adds that byte.
proof fn lemma_leading_value(s: Seq<u8>, len: int)
    requires
        0 < len <= s.len(),
    ensures
        crate::bytes::be_value(s.take(len)) == crate::bytes::be_value(s.take(len - 1)) * 256 + s[len
            - 1],
{
    assert(s.take(len).drop_last() =~= s.take(len - 1));
}

/// The two top bits of the first byte give the length, and the other bits of that many bytes the
/// value. Nothing is read if there are fewer bytes.
pub proof fn lemma_decoded_bytes(s: Seq<u8>)
    ensures
        s.len() == 0 ==> decoding(s) is None,
        s.len() > 0 ==> (decoding(s) is None <==> s.len() < (if s[0] < 0x40 {
            1
        } else if s[0] < 0x80 {
            2
        } else if s[0] < 0xc0 {
            4
        } else {
            8int
        })),
        s.len() >= 1 && s[0] < 0x40 ==> decoding(s) == Some((s[0] as nat, 1nat)),
        s.len() >= 2 && 0x40 <= s[0] < 0x80 ==> decoding(s) == Some(
            (((s[0] - 0x40) * 0x100 + s[1]) as nat, 2nat),
        ),
        s.len() >= 4 && 0x80 <= s[0] < 0xc0 ==> decoding(s) == Some(
            (((s[0] - 0x80) * 0x100_0000 + s[1] * 0x1_0000 + s[2] * 0x100 + s[3]) as nat, 4nat),
        ),
        s.len() >= 8 && 0xc0 <= s[0] ==> decoding(s) == Some(
            (
                ((s[0] - 0xc0) * 0x100_0000_0000_0000 + s[1] * 0x1_0000_0000_0000 + s[2]
                    * 0x100_0000_0000 + s[3] * 0x1_0000_0000 + s[4] * 0x100_0000 + s[5] * 0x1_0000
                    + s[6] * 0x100 + s[7]) as nat,
                8nat,
            ),
        ),
{
    if decoding(s) is Some {
        let len = announced_len(s[0]) as int;
        let t = s.take(len).update(0, (s[0] % 64) as u8);
        assert(forall|i: int| 1 <= i < len ==> t[i] == s[i]);
        lemma_leading_value(t, len);
        if len > 1 {
            lemma_leading_value(t, 1);
            lemma_leading_value(t, 2);
        }
        if len > 2 {
            lemma_leading_value(t, 3);
            lemma_leading_value(t, 4);
        }
        if len > 4 {
            lemma_leading_value(t, 5);
            lemma_leading_value(t, 6);
            lemma_leading_value(t, 7);
        }
        assert(t.take(0) =~= Seq::<u8>::empty());
        assert(t.take(len) =~= t);
    }
}

/// Decoding the form of an encodable value gives the value back and consumes exactly that form,
/// whatever bytes follow it.
pub proof fn lemma_roundtrip(n: nat, tail: Seq<u8>)
    requires
        n <= MAX,
    ensures
        encoding(n).len() == len_of(n),
        decoding(encoding(n) + tail) == Some((n, len_of(n))),
{
    lemma_plain_first(n);
    let plain = crate::bytes::be_bytes(n, len_of(n));
    let s = encoding(n) + tail;
    assert(s[0] == plain[0] + 64 * code_of(len_of(n)));
    assert(announced_len(s[0]) == len_of(n));
    assert(s.take(len_of(n) as int).update(0, (s[0] % 64) as u8) =~= plain);
}

/// What decoding returns lies in range: the length is 1, 2, 4 or 8 and covered by the input, and
/// the value can be encoded again in no more bytes than it was read from.
pub proof fn lemma_decoding_range(s: Seq<u8>)
    ensures
        decoding(s) matches Some((value, len)) ==> {
            &&& len == 1 || len == 2 || len == 4 || len == 8
            &&& len <= s.len()
            &&& value <= MAX
            &&& len_of(value) <= len
        },
{
    if decoding(s) is Some {
        let len = announced_len(s[0]);
        let t = s.take(len as int).update(0, (s[0] % 64) as u8);
        lemma_pow256_values();
        lemma_be_value_first(t);
        lemma_be_value_bound(t.drop_first());
        let p = crate::bytes::pow256((len - 1) as nat);
        assert(t[0] as nat * p <= 63 * p) by (nonlinear_arith)
            requires
                t[0] <= 63,
        ;
        assert(crate::bytes::be_value(t) < 64 * p);
    }
}

/// Encoding a decoded value and decoding the result gives the same value, now in its shortest
/// form.
pub proof fn lemma_reencode(s: Seq<u8>)
    ensures
        decoding(s) matches Some((value, _)) ==> decoding(encoding(value)) == Some(
            (value, len_of(value)),
        ),
{
    lemma_decoding_range(s);
    if let Some((n, _)) = decoding(s) {
        lemma_roundtrip(n, Seq::empty());
        assert(encoding(n) + Seq::<u8>::empty() =~= encoding(n));
    }
}

/// Returns the number of bytes needed to encode `n` (1, 2, 4 or 8).
///
/// For `n` above [`MAX`] it returns 8 too, though such a value cannot be encoded.
pub fn encoded_len(n: u64) -> (len: usize)
    ensures
        len == len_of(n as nat),
{
    if n < 64 {
        1
    } else if n < 16384 {
        2
    } else if n < 1073741824 {
        4
    } else {
        8
    }
}

/// Encodes `n` at the start of `buf` and returns the number of bytes written.
///
/// The rest of `buf` stays as it was.
pub fn encode(buf: &mut [u8], n: u64) -> (len: usize)
    requires
        n <= MAX,
        old(buf)@.len() >= len_of(n as nat),
    ensures
        len == len_of(n as nat),
        final(buf)@ == encoding(n as nat) + old(buf)@.skip(len as int),
{
    let len: usize = encoded_len(n);
    let ghost before = buf@;
    let ghost plain = crate::bytes::be_bytes(n as nat, len as nat);
    proof {
        lemma_plain_first(n as nat);
    }
    let mut rest: u64 = n;
    let mut i: usize = len;
    while i > 0
        invariant
            i <= len,
            len <= before.len(),
            buf@.len() == before.len(),
            plain.len() == len,
            plain == crate::bytes::be_bytes(rest as nat, i as nat) + plain.skip(i as int),
            crate::bytes::be_bytes(rest as nat, i as nat).len() == i,
            forall|j: int| i <= j < len ==> buf@[j] == plain[j],
            forall|j: int| len <= j < before.len() ==> buf@[j] == before[j],
        decreases i,
    {
        i = i - 1;
        let ghost head = crate::bytes::be_bytes(rest as nat, (i + 1) as nat);
        assert(head == crate::bytes::be_bytes((rest / 256) as nat, i as nat).push(
            (rest as nat % 256) as u8,
        ));
        assert(plain[i as int] == head[i as int]);
        buf[i] = (rest % 256) as u8;
        rest = rest / 256;
        assert(plain =~= crate::bytes::be_bytes(rest as nat, i as nat) + plain.skip(i as int));
    }
    assert(buf@[0] == plain[0]);
    let code: u8 = if len == 1 {
        0
    } else if len == 2 {
        64
    } else if len == 4 {
        128
    } else {
        192
    };
    buf[0] = buf[0] + code;
    assert(buf@ =~= encoding(n as nat) + before.skip(len as int));
    len
}

/// Appends the encoding of `n` to `buf`.
pub fn encode_to_vec(n: u64, buf: &mut Vec<u8>)
    requires
        n <= MAX,
        old(buf)@.len() + len_of(n as nat) <= usize::MAX,
    ensures
        final(buf)@ == old(buf)@ + encoding(n as nat),
{
    let len: usize = encoded_len(n);
    let mut bytes: [u8; 8] = [0; 8];
    encode(&mut bytes, n);
    let mut i: usize = 0;
    proof {
        lemma_plain_first(n as nat);
    }
    while i < len
        invariant
            i <= len,
            len <= 8,
            encoding(n as nat).len() == len,
            forall|j: int| 0 <= j < len ==> bytes@[j] == encoding(n as nat)[j],
            buf@ == old(buf)@ + encoding(n as nat).take(i as int),
        decreases len - i,
    {
        buf.push(bytes[i]);
        i = i + 1;
        assert(buf@ =~= old(buf)@ + encoding(n as nat).take(i as int));
    }
    assert(encoding(n as nat).take(len as int) =~= encoding(n as nat));
}

/// Decodes the variable-length integer that `buf` starts with.
///
/// Returns the value and the number of bytes consumed, or `None` if `buf` is empty or shorter
/// than its first byte announces.
pub fn decode(buf: &[u8]) -> (r: Option<(u64, usize)>)
    ensures
        match decoding(buf@) {
            Some((value, len)) => r == Some((value as u64, len as usize)) && value <= MAX && len
                <= buf@.len(),
            None => r is None,
        },
{
    if buf.len() == 0 {
        return None;
    }
    let first: u8 = buf[0];
    let len: usize = if first < 64 {
        1
    } else if first < 128 {
        2
    } else if first < 192 {
        4
    } else {
        8
    };
    if buf.len() < len {
        return None;
    }
    let ghost plain = buf@.take(len as int).update(0, (first % 64) as u8);
    proof {
        lemma_decoding_range(buf@);
        lemma_pow256_values();
    }
    let mut value: u64 = (first % 64) as u64;
    let mut i: usize = 1;
    assert(plain.take(1).drop_last() =~= Seq::<u8>::empty());
    assert(crate::bytes::be_value(plain.take(1).drop_last()) == 0);
    while i < len
        invariant
            1 <= i <= len,
            len <= 8,
            len <= buf@.len(),
            plain.len() == len,
            forall|j: int| 1 <= j < len ==> plain[j] == buf@[j],
            plain[0] < 64,
            value == crate::bytes::be_value(plain.take(i as int)),
            value < 64 * crate::bytes::pow256((i - 1) as nat),
        decreases len - i,
    {
        proof {
            lemma_pow256_values();
            assert(plain.take(i + 1).drop_last() =~= plain.take(i as int));
        }
        value = value * 256 + buf[i] as u64;
        i = i + 1;
    }
    assert(plain.take(len as int) =~= plain);
    Some((value, len))
}

} // verus!
