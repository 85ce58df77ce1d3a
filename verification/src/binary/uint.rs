//! Fixed-width unsigned integers in big-endian order, as they stand in the
//! bodies of Ion 1.0 integers and symbols.

use vstd::prelude::*;

verus! {

/// The number that the bytes of `s` spell, most significant byte first.
pub open spec fn be_nat(s: Seq<u8>) -> nat
    decreases s.len(),
{
    if s.len() == 0 {
        0
    } else {
        be_nat(s.drop_last()) * 256 + s.last() as nat
    }
}

/// The shortest big-endian spelling of `v`; empty for zero.
pub open spec fn be_bytes(v: nat) -> Seq<u8>
    decreases v,
{
    if v == 0 {
        Seq::empty()
    } else {
        be_bytes(v / 256).push((v % 256) as u8)
    }
}

/// True when `s` has no leading zero byte.
pub open spec fn is_normalized(s: Seq<u8>) -> bool {
    s.len() == 0 || s[0] != 0
}

/// 256 to the power `n`.
pub open spec fn pow256(n: nat) -> nat
    decreases n,
{
    if n == 0 {
        1
    } else {
        256 * pow256((n - 1) as nat)
    }
}

/// The shortest spelling of `v` spells `v` and has no leading zero.
pub proof fn lemma_be_bytes(v: nat)
    ensures
        be_nat(be_bytes(v)) == v,
        is_normalized(be_bytes(v)),
        v > 0 ==> be_bytes(v).len() > 0,
    decreases v,
{
    if v > 0 {
        lemma_be_bytes(v / 256);
        let b = be_bytes(v);
        assert(b.drop_last() =~= be_bytes(v / 256));
        if v / 256 > 0 {
            assert(b[0] == be_bytes(v / 256)[0]);
        }
    }
}

/// Leading zero bytes do not change the number.
pub proof fn lemma_be_nat_leading_zero(s: Seq<u8>)
    requires
        s.len() > 0,
        s[0] == 0,
    ensures
        be_nat(s) == be_nat(s.drop_first()),
    decreases s.len(),
{
    if s.len() == 1 {
        assert(s.drop_last() =~= Seq::<u8>::empty());
        assert(s.drop_first() =~= Seq::<u8>::empty());
    } else {
        lemma_be_nat_leading_zero(s.drop_last());
        assert(s.drop_last().drop_first() =~= s.drop_first().drop_last());
        assert(s.drop_first().last() == s.last());
    }
}

/// `n` bytes spell a number below 256 to the `n`.
pub proof fn lemma_be_nat_bound(s: Seq<u8>)
    ensures
        be_nat(s) < pow256(s.len()),
    decreases s.len(),
{
    if s.len() > 0 {
        lemma_be_nat_bound(s.drop_last());
        let m = be_nat(s.drop_last());
        let p = pow256((s.len() - 1) as nat);
        assert(m * 256 + 255 < 256 * p) by (nonlinear_arith)
            requires
                m < p,
        ;
    }
}

/// A spelling without a leading zero is the shortest spelling of its number.
pub proof fn lemma_normalized_is_be_bytes(s: Seq<u8>)
    requires
        is_normalized(s),
    ensures
        be_bytes(be_nat(s)) == s,
    decreases s.len(),
{
    if s.len() == 0 {
    } else if s.len() == 1 {
        assert(s.drop_last() =~= Seq::<u8>::empty());
        let v = be_nat(s);
        assert(be_nat(s.drop_last()) == 0);
        assert(v == s[0] as nat);
        assert(v > 0);
        assert(be_bytes(v) == be_bytes(v / 256).push((v % 256) as u8));
        assert(be_bytes(v / 256) =~= Seq::<u8>::empty());
        assert(be_bytes(v) =~= s);
    } else {
        let head = s.drop_last();
        assert(head[0] == s[0]);
        lemma_normalized_is_be_bytes(head);
        lemma_be_nat_positive(head);
        let v = be_nat(s);
        assert(v / 256 == be_nat(head));
        assert(v % 256 == s.last() as nat);
        assert(be_bytes(v) =~= s);
    }
}

/// A non-empty spelling without a leading zero spells a positive number.
pub proof fn lemma_be_nat_positive(s: Seq<u8>)
    requires
        s.len() > 0,
        s[0] != 0,
    ensures
        be_nat(s) > 0,
    decreases s.len(),
{
    if s.len() > 1 {
        assert(s.drop_last()[0] == s[0]);
        lemma_be_nat_positive(s.drop_last());
    } else {
        assert(s.drop_last() =~= Seq::<u8>::empty());
    }
}

/// The powers of 256 that fit in 64 bits.
pub proof fn lemma_pow256_values()
    ensures
        pow256(0) == 1,
        pow256(1) == 0x100,
        pow256(2) == 0x1_0000,
        pow256(3) == 0x100_0000,
        pow256(4) == 0x1_0000_0000,
        pow256(5) == 0x100_0000_0000,
        pow256(6) == 0x1_0000_0000_0000,
        pow256(7) == 0x100_0000_0000_0000,
        pow256(8) == 0x1_0000_0000_0000_0000,
{
    reveal_with_fuel(pow256, 9);
}

/// Decodes up to eight big-endian bytes.
pub fn decode_u64(bytes: &[u8]) -> (value: u64)
    requires
        bytes@.len() <= 8,
    ensures
        value == be_nat(bytes@),
{
    let mut value: u64 = 0;
    let mut i: usize = 0;
    proof {
        lemma_pow256_values();
    }
    while i < bytes.len()
        invariant
            i <= bytes@.len() <= 8,
            value == be_nat(bytes@.take(i as int)),
            value < pow256(i as nat),
        decreases bytes@.len() - i,
    {
        proof {
            lemma_pow256_values();
            assert(bytes@.take(i + 1).drop_last() =~= bytes@.take(i as int));
            lemma_be_nat_bound(bytes@.take(i + 1));
            lemma_pow256_monotonic(i as nat, 7);
            lemma_pow256_monotonic((i + 1) as nat, 8);
        }
        value = value * 256 + bytes[i] as u64;
        i += 1;
    }
    assert(bytes@.take(bytes@.len() as int) =~= bytes@);
    value
}

/// `pow256` grows with its argument.
pub proof fn lemma_pow256_monotonic(a: nat, b: nat)
    requires
        a <= b,
    ensures
        pow256(a) <= pow256(b),
        pow256(a) >= 1,
    decreases b,
{
    if a < b {
        lemma_pow256_monotonic(a, (b - 1) as nat);
    } else if a > 0 {
        lemma_pow256_monotonic((a - 1) as nat, (a - 1) as nat);
    }
}

/// Appends the shortest big-endian spelling of `value` to `sink`: nothing
/// for zero, and at most eight bytes.
pub fn encode_u64(sink: &mut Vec<u8>, value: u64)
    ensures
        final(sink)@ == old(sink)@ + be_bytes(value as nat),
        be_bytes(value as nat).len() <= 8,
{
    let mut buffer: [u8; 8] = [0, 0, 0, 0, 0, 0, 0, 0];
    let mut remaining: u64 = value;
    let mut first_byte: usize = 8;
    proof {
        lemma_pow256_values();
    }
    assert(remaining as nat * pow256(0) <= value) by (nonlinear_arith)
        requires
            pow256(0) == 1,
            remaining == value,
    ;
    while remaining != 0 && first_byte > 0
        invariant
            first_byte <= 8,
            be_bytes(value as nat) == be_bytes(remaining as nat) + buffer@.subrange(
                first_byte as int,
                8,
            ),
            remaining as nat * pow256((8 - first_byte) as nat) <= value,
        decreases first_byte,
    {
        let ghost before = buffer@;
        let ghost previous = remaining;
        let ghost k = (8 - first_byte) as nat;
        first_byte -= 1;
        buffer[first_byte] = (remaining % 256) as u8;
        remaining = remaining / 256;
        proof {
            let tail = buffer@.subrange(first_byte as int, 8);
            assert(tail =~= seq![(previous % 256) as u8] + before.subrange(first_byte + 1, 8));
            assert(be_bytes(previous as nat) =~= be_bytes(remaining as nat).push(
                (previous % 256) as u8,
            ));
            assert(be_bytes(previous as nat) + before.subrange(first_byte + 1, 8) =~= be_bytes(
                remaining as nat,
            ) + tail);
            assert(pow256(k + 1) == 256 * pow256(k));
            assert(remaining as nat * pow256(k + 1) <= value) by (nonlinear_arith)
                requires
                    remaining as nat * 256 <= previous as nat,
                    previous as nat * pow256(k) <= value,
                    pow256(k + 1) == 256 * pow256(k),
            ;
        }
    }
    proof {
        if remaining != 0 {
            lemma_pow256_values();
            assert(false) by (nonlinear_arith)
                requires
                    remaining as nat * pow256(8) <= value,
                    remaining >= 1,
                    pow256(8) == 0x1_0000_0000_0000_0000,
                    value <= 0xffff_ffff_ffff_ffff,
            ;
        }
        assert(be_bytes(0) =~= Seq::<u8>::empty());
        assert(be_bytes(value as nat) =~= buffer@.subrange(first_byte as int, 8));
    }
    let mut i: usize = first_byte;
    while i < 8
        invariant
            first_byte <= i <= 8,
            sink@ == old(sink)@ + buffer@.subrange(first_byte as int, i as int),
        decreases 8 - i,
    {
        sink.push(buffer[i]);
        i += 1;
        assert(buffer@.subrange(first_byte as int, i as int) =~= buffer@.subrange(
            first_byte as int,
            i - 1,
        ).push(buffer@[i - 1]));
    }
}

/// A spelling of `n` bytes without a leading zero spells a number of at least
/// 256 to the `n - 1`.
pub proof fn lemma_normalized_lower_bound(s: Seq<u8>)
    requires
        s.len() > 0,
        s[0] != 0,
    ensures
        be_nat(s) >= pow256((s.len() - 1) as nat),
    decreases s.len(),
{
    if s.len() == 1 {
        assert(s.drop_last() =~= Seq::<u8>::empty());
        assert(be_nat(s.drop_last()) == 0);
    } else {
        assert(s.drop_last()[0] == s[0]);
        lemma_normalized_lower_bound(s.drop_last());
        let m = be_nat(s.drop_last());
        let p = pow256((s.len() - 2) as nat);
        assert(pow256((s.len() - 1) as nat) == 256 * p);
        assert(m * 256 >= 256 * p) by (nonlinear_arith)
            requires
                m >= p,
        ;
    }
}

} // verus!
