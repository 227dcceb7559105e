use vstd::prelude::*;

verus! {

/// Width in bytes of a digest and of a difficulty target.
pub const DIGEST_LEN: usize = 32;

/// `256` raised to `k`.
pub open spec fn pow256(k: nat) -> nat
    decreases k,
{
    if k == 0 {
        1
    } else {
        256 * pow256((k - 1) as nat)
    }
}

/// The unsigned integer that a byte string denotes, most significant byte first.
pub open spec fn be_value(s: Seq<u8>) -> nat
    decreases s.len(),
{
    if s.len() == 0 {
        0
    } else {
        s[0] as nat * pow256((s.len() - 1) as nat) + be_value(s.drop_first())
    }
}

/// A digest is accepted when, read as a big-endian integer, it does not
/// exceed the target read the same way.
pub open spec fn accepts_spec(digest: Seq<u8>, target: Seq<u8>) -> bool {
    be_value(digest) <= be_value(target)
}

pub proof fn lemma_pow256_positive(k: nat)
    ensures
        pow256(k) >= 1,
    decreases k,
{
    if k > 0 {
        lemma_pow256_positive((k - 1) as nat);
    }
}

/// A string of `n` bytes denotes less than `256^n`.
pub proof fn lemma_be_value_bound(s: Seq<u8>)
    ensures
        be_value(s) < pow256(s.len()),
    decreases s.len(),
{
    if s.len() > 0 {
        let p = pow256((s.len() - 1) as nat);
        lemma_be_value_bound(s.drop_first());
        let rest = be_value(s.drop_first());
        let d = s[0] as nat;
        assert(d * p + rest < 256 * p) by (nonlinear_arith)
            requires
                d <= 255,
                rest < p,
        ;
    }
}

/// Two strings of one length that agree before index `i` and differ at `i`
/// are ordered as their bytes at `i` are.
pub proof fn lemma_be_value_first_difference(a: Seq<u8>, b: Seq<u8>, i: int)
    requires
        a.len() == b.len(),
        0 <= i < a.len(),
        forall|j: int| 0 <= j < i ==> a[j] == b[j],
        a[i] < b[i],
    ensures
        be_value(a) < be_value(b),
    decreases i,
{
    let p = pow256((a.len() - 1) as nat);
    if i == 0 {
        lemma_be_value_bound(a.drop_first());
        let ra = be_value(a.drop_first());
        let rb = be_value(b.drop_first());
        let da = a[0] as nat;
        let db = b[0] as nat;
        assert(da * p + ra < db * p + rb) by (nonlinear_arith)
            requires
                da < db,
                ra < p,
                rb >= 0,
        ;
    } else {
        lemma_be_value_first_difference(a.drop_first(), b.drop_first(), i - 1);
    }
}

/// Decides whether `digest` is at most `target`, both read as 256-bit
/// big-endian unsigned integers.
pub fn accepts(digest: &[u8; DIGEST_LEN], target: &[u8; DIGEST_LEN]) -> (r: bool)
    ensures
        r == accepts_spec(digest@, target@),
{
    let mut i: usize = 0;
    while i < DIGEST_LEN
        invariant
            i <= DIGEST_LEN,
            digest@.len() == DIGEST_LEN,
            target@.len() == DIGEST_LEN,
            forall|j: int| 0 <= j < i ==> digest@[j] == target@[j],
        decreases DIGEST_LEN - i,
    {
        if digest[i] != target[i] {
            proof {
                if digest@[i as int] < target@[i as int] {
                    lemma_be_value_first_difference(digest@, target@, i as int);
                } else {
                    lemma_be_value_first_difference(target@, digest@, i as int);
                }
            }
            return digest[i] < target[i];
        }
        i = i + 1;
    }
    assert(digest@ =~= target@);
    true
}

} // verus!
