//! Decimal and hexadecimal text.

use vstd::prelude::*;
use vstd::utf8::*;

verus! {

/// The decimal digit `d`.
pub open spec fn digit(d: nat) -> char {
    if d == 0 {
        '0'
    } else if d == 1 {
        '1'
    } else if d == 2 {
        '2'
    } else if d == 3 {
        '3'
    } else if d == 4 {
        '4'
    } else if d == 5 {
        '5'
    } else if d == 6 {
        '6'
    } else if d == 7 {
        '7'
    } else if d == 8 {
        '8'
    } else {
        '9'
    }
}

/// The lower-case hexadecimal digit `d`.
pub open spec fn hex_digit(d: nat) -> char {
    if d < 10 {
        digit(d)
    } else if d == 10 {
        'a'
    } else if d == 11 {
        'b'
    } else if d == 12 {
        'c'
    } else if d == 13 {
        'd'
    } else if d == 14 {
        'e'
    } else {
        'f'
    }
}

/// `n` in decimal, without leading zeros.
pub open spec fn digits(n: nat) -> Seq<char>
    decreases n,
{
    if n < 10 {
        seq![digit(n)]
    } else {
        digits(n / 10).push(digit(n % 10))
    }
}

/// `n` in decimal, with a minus sign if it is negative.
pub open spec fn decimal(n: int) -> Seq<char> {
    if n < 0 {
        seq!['-'] + digits((-n) as nat)
    } else {
        digits(n as nat)
    }
}

/// `s` in hexadecimal, two digits for each byte.
pub open spec fn hex(s: Seq<u8>) -> Seq<char>
    decreases s.len(),
{
    if s.len() == 0 {
        Seq::empty()
    } else {
        hex(s.drop_last()) + seq![
            hex_digit(s.last() as nat / 16),
            hex_digit(s.last() as nat % 16),
        ]
    }
}

/// The number that decimal digits write.
pub open spec fn written_number(s: Seq<char>) -> int
    decreases s.len(),
{
    if s.len() == 0 {
        0
    } else {
        written_number(s.drop_last()) * 10 + (s.last() as int - '0' as int)
    }
}

/// A number in decimal consists of digits, starts with no zero unless it is zero, and reads back.
pub proof fn lemma_digits_read_back(n: nat)
    ensures
        digits(n).len() > 0,
        forall|i: int| 0 <= i < digits(n).len() ==> '0' <= #[trigger] digits(n)[i] <= '9',
        n > 0 ==> digits(n)[0] != '0',
        written_number(digits(n)) == n,
    decreases n,
{
    if n >= 10 {
        lemma_digits_read_back(n / 10);
        assert(digits(n).drop_last() =~= digits(n / 10));
    } else {
        assert(digits(n).drop_last() =~= Seq::<char>::empty());
        assert(written_number(digits(n).drop_last()) == 0);
    }
}

/// A negative number has a minus sign in front of its digits, and no other number has one.
pub proof fn lemma_decimal_reads_back(n: int)
    ensures
        n >= 0 ==> decimal(n)[0] != '-' && written_number(decimal(n)) == n,
        n < 0 ==> decimal(n)[0] == '-' && -written_number(decimal(n).drop_first()) == n,
{
    if n < 0 {
        lemma_digits_read_back((-n) as nat);
        assert(decimal(n).drop_first() =~= digits((-n) as nat));
    } else {
        lemma_digits_read_back(n as nat);
        assert('0' <= digits(n as nat)[0]);
    }
}

/// Different numbers are written differently.
pub proof fn lemma_decimal_injective(m: int, n: int)
    requires
        decimal(m) == decimal(n),
    ensures
        m == n,
{
    lemma_decimal_reads_back(m);
    lemma_decimal_reads_back(n);
}

/// Each byte becomes two hexadecimal digits in lower case, the higher one first, in the order of the
/// bytes.
pub proof fn lemma_hex_digits(s: Seq<u8>)
    ensures
        hex(s).len() == 2 * s.len(),
        forall|i: int|
            0 <= i < s.len() ==> hex(s)[2 * i] as int == (if #[trigger] s[i] / 16 < 10 {
                '0' as int + s[i] / 16
            } else {
                'a' as int + s[i] / 16 - 10
            }) && hex(s)[2 * i + 1] as int == (if s[i] % 16 < 10 {
                '0' as int + s[i] % 16
            } else {
                'a' as int + s[i] % 16 - 10
            }),
    decreases s.len(),
{
    if s.len() > 0 {
        let before = s.drop_last();
        lemma_hex_digits(before);
        assert forall|i: int| 0 <= i < s.len() implies hex(s)[2 * i] as int == (if #[trigger] s[i]
            / 16 < 10 {
            '0' as int + s[i] / 16
        } else {
            'a' as int + s[i] / 16 - 10
        }) && hex(s)[2 * i + 1] as int == (if s[i] % 16 < 10 {
            '0' as int + s[i] % 16
        } else {
            'a' as int + s[i] % 16 - 10
        }) by {
            if i < before.len() {
                assert(before[i] == s[i]);
                assert(hex(s)[2 * i] == hex(before)[2 * i]);
                assert(hex(s)[2 * i + 1] == hex(before)[2 * i + 1]);
            }
        }
    }
}

/// The digit `d` as text.
fn digit_str(d: u8) -> (r: &'static str)
    requires
        d < 16,
    ensures
        r@ == seq![hex_digit(d as nat)],
{
    proof {
        reveal_strlit("0");
        reveal_strlit("1");
        reveal_strlit("2");
        reveal_strlit("3");
        reveal_strlit("4");
        reveal_strlit("5");
        reveal_strlit("6");
        reveal_strlit("7");
        reveal_strlit("8");
        reveal_strlit("9");
        reveal_strlit("a");
        reveal_strlit("b");
        reveal_strlit("c");
        reveal_strlit("d");
        reveal_strlit("e");
        reveal_strlit("f");
    }
    match d {
        0 => "0",
        1 => "1",
        2 => "2",
        3 => "3",
        4 => "4",
        5 => "5",
        6 => "6",
        7 => "7",
        8 => "8",
        9 => "9",
        10 => "a",
        11 => "b",
        12 => "c",
        13 => "d",
        14 => "e",
        _ => "f",
    }
}

/// Appends `n` in decimal.
pub fn push_digits(out: &mut String, n: u64)
    ensures
        final(out)@ == old(out)@ + digits(n as nat),
    decreases n,
{
    if n >= 10 {
        push_digits(out, n / 10);
    }
    out.append(digit_str((n % 10) as u8));
    assert(out@ =~= old(out)@ + digits(n as nat));
}

/// Appends `n` in decimal, with a minus sign if it is negative.
pub fn push_decimal(out: &mut String, n: i64)
    ensures
        final(out)@ == old(out)@ + decimal(n as int),
{
    if n < 0 {
        proof {
            reveal_strlit("-");
        }
        out.append("-");
        let magnitude: u64 = (-(n + 1)) as u64 + 1;
        push_digits(out, magnitude);
        assert(out@ =~= old(out)@ + decimal(n as int));
    } else {
        push_digits(out, n as u64);
    }
}

/// Appends `bytes` in hexadecimal.
pub fn push_hex(out: &mut String, bytes: &[u8])
    ensures
        final(out)@ == old(out)@ + hex(bytes@),
{
    let mut i: usize = 0;
    while i < bytes.len()
        invariant
            i <= bytes@.len(),
            out@ == old(out)@ + hex(bytes@.take(i as int)),
        decreases bytes@.len() - i,
    {
        let b: u8 = bytes[i];
        out.append(digit_str(b / 16));
        out.append(digit_str(b % 16));
        assert(bytes@.take(i + 1).drop_last() =~= bytes@.take(i as int));
        assert(out@ =~= old(out)@ + hex(bytes@.take(i + 1)));
        i = i + 1;
    }
    assert(bytes@.take(i as int) =~= bytes@);
}

/// An ASCII character stands in a text exactly if its byte stands in the UTF-8 form of the text.
proof fn lemma_ascii_byte(chars: Seq<char>, b: u8)
    requires
        b < 128,
    ensures
        encode_utf8(chars).contains(b) <==> chars.contains(b as char),
    decreases chars.len(),
{
    if chars.len() == 0 {
        assert(!chars.contains(b as char));
    } else {
        let c = chars[0] as u32;
        let first = encode_scalar(c);
        let rest = encode_utf8(chars.drop_first());
        lemma_ascii_byte(chars.drop_first(), b);
        char_is_scalar(chars[0]);
        char_u32_cast(chars[0], c);
        assert(c < 128 ==> (c & 0x7F) as u8 == c) by (bit_vector);
        assert forall|x: u8| #![auto] (0xC0 | x) >= 128 && (0xE0 | x) >= 128 && (0xF0 | x) >= 128
            && (0x80 | x) >= 128 by {
            assert((0xC0 | x) >= 128 && (0xE0 | x) >= 128 && (0xF0 | x) >= 128 && (0x80 | x)
                >= 128) by (bit_vector);
        }
        assert(first.contains(b) <==> chars[0] == b as char) by {
            if c < 128 {
                assert(first[0] == c);
                assert(first.contains(c as u8));
                assert(forall|x: u8| first.contains(x) ==> x == c);
            } else {
                assert forall|i: int| 0 <= i < first.len() implies first[i] != b by {}
            }
        }
        assert(encode_utf8(chars) == first + rest);
        if first.contains(b) {
            let i = choose|i: int| 0 <= i < first.len() && first[i] == b;
            assert((first + rest)[i] == b);
        }
        if rest.contains(b) {
            let i = choose|i: int| 0 <= i < rest.len() && rest[i] == b;
            assert((first + rest)[first.len() + i] == b);
            let j = choose|j: int|
                0 <= j < chars.drop_first().len() && chars.drop_first()[j] == b as char;
            assert(chars[j + 1] == b as char);
        }
        if encode_utf8(chars).contains(b) {
            let i = choose|i: int| 0 <= i < (first + rest).len() && (first + rest)[i] == b;
            if i < first.len() {
                assert(first[i] == b);
            } else {
                assert(rest[i - first.len()] == b);
            }
        }
        if chars.contains(b as char) {
            let j = choose|j: int| 0 <= j < chars.len() && chars[j] == b as char;
            if j > 0 {
                assert(chars.drop_first()[j - 1] == b as char);
            }
        }
    }
}

/// Returns whether the ASCII character with the code `b` stands in `s`.
pub fn contains_ascii(s: &str, b: u8) -> (r: bool)
    requires
        b < 128,
    ensures
        r == s@.contains(b as char),
{
    proof {
        lemma_ascii_byte(s@, b);
    }
    let bytes: &[u8] = s.as_bytes();
    let mut i: usize = 0;
    while i < bytes.len()
        invariant
            i <= bytes@.len(),
            bytes@ == encode_utf8(s@),
            forall|j: int| 0 <= j < i ==> bytes@[j] != b,
            encode_utf8(s@).contains(b) <==> s@.contains(b as char),
        decreases bytes@.len() - i,
    {
        if bytes[i] == b {
            assert(encode_utf8(s@)[i as int] == b);
            return true;
        }
        i = i + 1;
    }
    false
}

/// Returns whether two texts are equal.
pub fn same_text(a: &str, b: &str) -> (r: bool)
    ensures
        r == (a@ == b@),
{
    proof {
        encode_utf8_decode_utf8(a@);
        encode_utf8_decode_utf8(b@);
    }
    let x: &[u8] = a.as_bytes();
    let y: &[u8] = b.as_bytes();
    if x.len() != y.len() {
        return false;
    }
    let mut i: usize = 0;
    while i < x.len()
        invariant
            i <= x@.len(),
            x@.len() == y@.len(),
            x@ == encode_utf8(a@),
            y@ == encode_utf8(b@),
            forall|j: int| 0 <= j < i ==> x@[j] == y@[j],
        decreases x@.len() - i,
    {
        if x[i] != y[i] {
            return false;
        }
        i = i + 1;
    }
    assert(x@ =~= y@);
    true
}

/// The texts in `list`.
pub open spec fn texts(list: Seq<String>) -> Seq<Seq<char>> {
    list.map_values(|s: String| s@)
}

} // verus!
