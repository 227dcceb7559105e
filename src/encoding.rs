use vstd::prelude::*;
use vstd::arithmetic::div_mod::lemma_div_denominator;
use crate::difficulty::{pow256, lemma_pow256_positive};

verus! {

/// The first `width` bytes of `n`, least significant byte first.
pub open spec fn le_bytes(n: nat, width: nat) -> Seq<u8> {
    Seq::new(width, |k: int| ((n / pow256(k as nat)) % 256) as u8)
}

/// The unsigned integer that a byte string denotes, least significant byte first.
pub open spec fn le_value(s: Seq<u8>) -> nat
    decreases s.len(),
{
    if s.len() == 0 {
        0
    } else {
        s[0] as nat + 256 * le_value(s.drop_first())
    }
}

proof fn lemma_pow256_eight()
    ensures
        pow256(8) == 0x1_0000_0000_0000_0000nat,
{
    reveal_with_fuel(pow256, 9);
}

/// Writes the low `width` bytes of `n`, least significant first.
pub fn le_encode(n: u64, width: usize) -> (r: Vec<u8>)
    requires
        width <= 8,
    ensures
        r@ == le_bytes(n as nat, width as nat),
{
    let mut out: Vec<u8> = Vec::new();
    let mut x: u64 = n;
    let mut k: usize = 0;
    assert(pow256(0) == 1);
    while k < width
        invariant
            k <= width,
            out@.len() == k,
            x as nat == n as nat / pow256(k as nat),
            forall|j: int| 0 <= j < k ==> out@[j] == le_bytes(n as nat, width as nat)[j],
        decreases width - k,
    {
        out.push((x % 256) as u8);
        proof {
            lemma_pow256_positive(k as nat);
            lemma_div_denominator(n as int, pow256(k as nat) as int, 256);
            assert(pow256(k as nat) * 256 == pow256((k + 1) as nat));
        }
        x = x / 256;
        k = k + 1;
    }
    assert(out@ =~= le_bytes(n as nat, width as nat));
    out
}

/// Reads an unsigned 64-bit integer from the first eight bytes of `bytes`,
/// least significant first; `None` when fewer than eight bytes are given.
pub fn le_decode_u64(bytes: &[u8]) -> (r: Option<u64>)
    ensures
        r is None <==> bytes@.len() < 8,
        r matches Some(v) ==> v as nat == le_value(bytes@.subrange(0, 8)),
{
    if bytes.len() < 8 {
        return None;
    }
    let mut v: u64 = 0;
    let mut i: usize = 8;
    proof {
        assert(bytes@.subrange(8, 8).len() == 0);
        lemma_pow256_eight();
    }
    while i > 0
        invariant
            i <= 8,
            bytes@.len() >= 8,
            v as nat == le_value(bytes@.subrange(i as int, 8)),
            v < pow256((8 - i) as nat),
            pow256(8) == 0x1_0000_0000_0000_0000nat,
        decreases i,
    {
        i = i - 1;
        let b = bytes[i];
        proof {
            let tail = bytes@.subrange(i as int, 8);
            assert(tail.drop_first() =~= bytes@.subrange(i + 1, 8));
            assert(pow256((8 - i) as nat) == 256 * pow256((8 - i - 1) as nat));
            assert(pow256((8 - i) as nat) <= pow256(8)) by {
                lemma_pow256_monotone((8 - i) as nat, 8);
            }
            assert(v * 256 + b < 256 * pow256((8 - i - 1) as nat)) by (nonlinear_arith)
                requires
                    v < pow256((8 - i - 1) as nat),
                    b < 256,
            ;
        }
        v = v * 256 + b as u64;
    }
    Some(v)
}

/// Writing `n` in `width` bytes and reading it back gives `n`, when `n`
/// fits in that many bytes.
pub proof fn lemma_le_round_trip(n: nat, width: nat)
    requires
        n < pow256(width),
    ensures
        le_value(le_bytes(n, width)) == n,
    decreases width,
{
    if width == 0 {
        assert(n == 0);
    } else {
        let s = le_bytes(n, width);
        let q = n / 256;
        assert(s.drop_first() =~= le_bytes(q, (width - 1) as nat)) by {
            assert forall|k: int| 0 <= k < width - 1 implies s.drop_first()[k] == le_bytes(
                q,
                (width - 1) as nat,
            )[k] by {
                lemma_pow256_positive(k as nat);
                lemma_div_denominator(n as int, 256, pow256(k as nat) as int);
                assert(pow256((k + 1) as nat) == 256 * pow256(k as nat));
            }
        }
        assert(q < pow256((width - 1) as nat)) by {
            assert(pow256(width) == 256 * pow256((width - 1) as nat));
        }
        lemma_le_round_trip(q, (width - 1) as nat);
        assert(s[0] == n % 256) by {
            assert(pow256(0) == 1);
            assert(n / 1 == n);
            assert(s[0] == ((n / pow256(0)) % 256) as u8);
        }
    }
}

proof fn lemma_pow256_monotone(a: nat, b: nat)
    requires
        a <= b,
    ensures
        pow256(a) <= pow256(b),
    decreases b - a,
{
    if a < b {
        lemma_pow256_monotone(a, (b - 1) as nat);
        lemma_pow256_positive((b - 1) as nat);
    }
}

} // verus!
