//! Integers in two's complement, least significant byte first, as they stand
//! in the bodies of Ion 1.1 integers.

use vstd::prelude::*;
use crate::binary::uint::{be_nat, pow256};
use crate::types::integer::Int;

verus! {

/// The number that the bytes of `s` spell, least significant byte first.
pub open spec fn le_nat(s: Seq<u8>) -> nat
    decreases s.len(),
{
    if s.len() == 0 {
        0
    } else {
        le_nat(s.drop_first()) * 256 + s[0] as nat
    }
}

/// The integer that the bytes of `s` spell in two's complement, least
/// significant byte first. No bytes spell zero.
pub open spec fn fixed_int(s: Seq<u8>) -> int {
    if s.len() > 0 && s.last() >= 128 {
        le_nat(s) - pow256(s.len())
    } else {
        le_nat(s) as int
    }
}

/// The bytes of the magnitude of the negative number that `s` spells, least
/// significant byte first: zero below the lowest byte `k` of `s` that is not
/// zero, the complement to 256 at `k`, and the complement to 255 above.
pub open spec fn negated(s: Seq<u8>, k: int) -> Seq<u8> {
    Seq::new(
        s.len(),
        |i: int|
            if i < k {
                0u8
            } else if i == k {
                (256 - s[i]) as u8
            } else {
                (255 - s[i]) as u8
            },
    )
}

/// From byte `j` on, `s` and its negation add up to a power of 256, less one
/// above the lowest byte that is not zero.
pub proof fn lemma_negated(s: Seq<u8>, k: int, j: int)
    requires
        0 <= k < s.len(),
        s[k] != 0,
        forall|i: int| 0 <= i < k ==> s[i] == 0,
        0 <= j <= s.len(),
    ensures
        le_nat(negated(s, k).skip(j)) + le_nat(s.skip(j)) == if j > k {
            pow256((s.len() - j) as nat) - 1
        } else {
            pow256((s.len() - j) as nat) as int
        },
    decreases s.len() - j,
{
    let neg = negated(s, k);
    if j == s.len() {
        assert(neg.skip(j).len() == 0);
        assert(s.skip(j).len() == 0);
    } else {
        lemma_negated(s, k, j + 1);
        assert(neg.skip(j).drop_first() =~= neg.skip(j + 1));
        assert(s.skip(j).drop_first() =~= s.skip(j + 1));
        assert(neg.skip(j)[0] == neg[j]);
        assert(s.skip(j)[0] == s[j]);
        let p = pow256((s.len() - j - 1) as nat);
        assert(pow256((s.len() - j) as nat) == 256 * p);
    }
}

/// Decodes the integer that `bytes` spell in two's complement, least
/// significant byte first.
pub fn decode_fixed_int(bytes: &[u8]) -> (r: Int)
    ensures
        r.wf(),
        r.value() == fixed_int(bytes@),
{
    let n = bytes.len();
    let negative = n > 0 && bytes[n - 1] >= 128;
    let mut lowest: usize = 0;
    if negative {
        while lowest < n && bytes[lowest] == 0
            invariant
                lowest <= n,
                n == bytes@.len(),
                n > 0,
                bytes@[n - 1] >= 128,
                forall|i: int| 0 <= i < lowest ==> bytes@[i] == 0,
            decreases n - lowest,
        {
            lowest += 1;
        }
    }
    let ghost spelled = if negative {
        negated(bytes@, lowest as int)
    } else {
        bytes@
    };
    let mut magnitude: Vec<u8> = Vec::new();
    let mut i: usize = n;
    assert(spelled.skip(n as int).len() == 0);
    while i > 0
        invariant
            i <= n,
            n == bytes@.len(),
            negative ==> lowest < n,
            spelled == if negative {
                negated(bytes@, lowest as int)
            } else {
                bytes@
            },
            be_nat(magnitude@) == le_nat(spelled.skip(i as int)),
        decreases i,
    {
        i -= 1;
        let byte: u8 = if !negative {
            bytes[i]
        } else if i < lowest {
            0
        } else if i == lowest {
            (256 - bytes[i] as u16) as u8
        } else {
            255 - bytes[i]
        };
        proof {
            assert(spelled.skip(i as int).drop_first() =~= spelled.skip(i + 1));
            assert(spelled.skip(i as int)[0] == byte);
            assert(magnitude@.push(byte).drop_last() =~= magnitude@);
        }
        magnitude.push(byte);
    }
    proof {
        assert(spelled.skip(0) =~= spelled);
        assert(bytes@.skip(0) =~= bytes@);
        if negative {
            lemma_negated(bytes@, lowest as int, 0);
        }
    }
    Int::from_sign_and_magnitude(negative, magnitude.as_slice())
}

} // verus!
