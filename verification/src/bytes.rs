//! Big-endian byte strings and the numbers they stand for.

use vstd::prelude::*;

verus! {

/// 256 to the power `len`: the number of byte strings of that length.
pub open spec fn pow256(len: nat) -> nat
    decreases len,
{
    if len == 0 {
        1
    } else {
        256 * pow256((len - 1) as nat)
    }
}

/// The number that `s` writes in big-endian order.
pub open spec fn be_value(s: Seq<u8>) -> nat
    decreases s.len(),
{
    if s.len() == 0 {
        0
    } else {
        be_value(s.drop_last()) * 256 + s.last() as nat
    }
}

/// The big-endian byte string of length `len` that stands for `n` (modulo `pow256(len)`).
pub open spec fn be_bytes(n: nat, len: nat) -> Seq<u8>
    decreases len,
{
    if len == 0 {
        Seq::empty()
    } else {
        be_bytes(n / 256, (len - 1) as nat).push((n % 256) as u8)
    }
}

/// `be_bytes` gives as many bytes as it was asked for.
pub proof fn lemma_be_bytes_len(n: nat, len: nat)
    ensures
        be_bytes(n, len).len() == len,
    decreases len,
{
    if len > 0 {
        lemma_be_bytes_len(n / 256, (len - 1) as nat);
    }
}

/// A number that fits into `len` bytes is read back from its big-endian form.
pub proof fn lemma_be_roundtrip(n: nat, len: nat)
    requires
        n < pow256(len),
    ensures
        be_bytes(n, len).len() == len,
        be_value(be_bytes(n, len)) == n,
    decreases len,
{
    if len > 0 {
        lemma_be_roundtrip(n / 256, (len - 1) as nat);
        assert(be_bytes(n, len).drop_last() =~= be_bytes(n / 256, (len - 1) as nat));
    }
}

/// A byte string stands for a number below `pow256` of its length.
pub proof fn lemma_be_value_bound(s: Seq<u8>)
    ensures
        be_value(s) < pow256(s.len()),
    decreases s.len(),
{
    if s.len() > 0 {
        lemma_be_value_bound(s.drop_last());
    }
}

/// A byte string is written back from the number it stands for.
pub proof fn lemma_be_rewrite(s: Seq<u8>)
    ensures
        be_bytes(be_value(s), s.len()) == s,
    decreases s.len(),
{
    if s.len() > 0 {
        lemma_be_rewrite(s.drop_last());
        let n = be_value(s);
        assert(n / 256 == be_value(s.drop_last()));
        assert((n % 256) as u8 == s.last());
        assert(be_bytes(n, s.len()) =~= s.drop_last().push(s.last()));
    }
}

/// The first byte of a string weighs `pow256` of the length of the rest.
pub proof fn lemma_be_value_first(s: Seq<u8>)
    requires
        s.len() > 0,
    ensures
        be_value(s) == s[0] as nat * pow256((s.len() - 1) as nat) + be_value(s.drop_first()),
    decreases s.len(),
{
    if s.len() == 1 {
        assert(s.drop_last() =~= Seq::<u8>::empty());
        assert(s.drop_first() =~= Seq::<u8>::empty());
        assert(be_value(s.drop_last()) == 0);
        assert(s[0] as nat * pow256(0) == s[0] as nat) by (nonlinear_arith)
            requires
                pow256(0) == 1,
        ;
    } else {
        let t = s.drop_last();
        lemma_be_value_first(t);
        assert(t.drop_first() =~= s.drop_first().drop_last());
        assert(s.drop_first().last() == s.last());
        let p = pow256((t.len() - 1) as nat);
        assert(pow256((s.len() - 1) as nat) == 256 * p);
        assert((s[0] as nat * p) * 256 == s[0] as nat * (256 * p)) by (nonlinear_arith);
    }
}

/// The powers of 256 that machine integers reach.
pub proof fn lemma_pow256_values()
    ensures
        pow256(0) == 1,
        pow256(1) == 0x100,
        pow256(2) == 0x1_0000,
        pow256(3) == 0x100_0000,
        pow256(4) == 0x1_0000_0000,
        pow256(5) == 0x100_0000_0000,
        pow256(6) == 0x1_0000_0000_0000,
        pow256(7) == 0x100_0000_0000_0000,
        pow256(8) == 0x1_0000_0000_0000_0000,
{
    reveal_with_fuel(pow256, 9);
}

/// Overwrites the start of `buf` with `part`.
pub fn put(buf: &mut [u8], part: &[u8])
    requires
        part@.len() <= old(buf)@.len(),
    ensures
        final(buf)@ == part@ + old(buf)@.skip(part@.len() as int),
{
    let ghost before = buf@;
    let total: usize = buf.len();
    let mut i: usize = 0;
    assert(before.skip(0) =~= before);
    while i < part.len()
        invariant
            i <= part@.len() <= total,
            total == before.len(),
            buf@ == part@.take(i as int) + before.skip(i as int),
        decreases part@.len() - i,
    {
        buf[i] = part[i];
        i = i + 1;
        assert(buf@ =~= part@.take(i as int) + before.skip(i as int));
    }
    assert(part@.take(i as int) =~= part@);
}

} // verus!
