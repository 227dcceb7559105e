use vstd::prelude::*;
use crate::difficulty::{
    accepts_spec, be_value, pow256, lemma_be_value_bound, lemma_pow256_positive, DIGEST_LEN,
};
use crate::dispatch::{zero_bytes, FOUND_LEN, NONCE_LEN};
use crate::encoding::le_value;
use crate::hash::digest_of;
use crate::search::{nonce_accepted, search_post, SearchError, SearchResult};
use crate::crosscheck::{outcome_of, report_of, VerificationOutcome};

verus! {

/// The target whose every byte is `0xFF`.
pub open spec fn max_target() -> Seq<u8> {
    Seq::new(DIGEST_LEN as nat, |i: int| 0xFFu8)
}

proof fn lemma_be_value_all_ff(n: nat)
    ensures
        be_value(Seq::new(n, |i: int| 0xFFu8)) + 1 == pow256(n),
    decreases n,
{
    let s = Seq::new(n, |i: int| 0xFFu8);
    if n > 0 {
        assert(s.drop_first() =~= Seq::new((n - 1) as nat, |i: int| 0xFFu8));
        lemma_be_value_all_ff((n - 1) as nat);
    }
}

proof fn lemma_be_value_zero(s: Seq<u8>)
    ensures
        be_value(s) == 0 <==> forall|i: int| 0 <= i < s.len() ==> s[i] == 0,
    decreases s.len(),
{
    if s.len() > 0 {
        lemma_be_value_zero(s.drop_first());
        lemma_pow256_positive((s.len() - 1) as nat);
        let p = pow256((s.len() - 1) as nat);
        let d = s[0] as nat;
        assert(d * p == 0 <==> d == 0) by (nonlinear_arith)
            requires
                p >= 1,
        ;
        if be_value(s) == 0 {
            assert forall|i: int| 0 <= i < s.len() implies s[i] == 0 by {
                if i > 0 {
                    assert(s[i] == s.drop_first()[i - 1]);
                }
            }
        }
        if forall|i: int| 0 <= i < s.len() ==> s[i] == 0 {
            assert forall|i: int| 0 <= i < s.drop_first().len() implies s.drop_first()[i] == 0 by {
                assert(s.drop_first()[i] == s[i + 1]);
            }
        }
    }
}

/// A successful sequential search returns an accepted digest, and every
/// smaller nonce from one on is rejected.
pub proof fn lemma_search_first_match(
    input: Seq<u8>,
    target: Seq<u8>,
    max_nonce: u64,
    res: SearchResult,
)
    requires
        search_post(input, target, max_nonce, Ok(res)),
    ensures
        res.found,
        accepts_spec(res.digest@, target),
        forall|m: u64| 1 <= m < res.nonce ==> !accepts_spec(#[trigger] digest_of(input, m), target),
{
    assert forall|m: u64| 1 <= m < res.nonce implies !accepts_spec(
        #[trigger] digest_of(input, m),
        target,
    ) by {
        assert(!nonce_accepted(input, target, m));
    }
}

/// Every digest of thirty-two bytes is accepted under the all-`0xFF` target.
pub proof fn lemma_max_target_accepts_all(digest: Seq<u8>)
    requires
        digest.len() == DIGEST_LEN,
    ensures
        accepts_spec(digest, max_target()),
{
    lemma_be_value_bound(digest);
    lemma_be_value_all_ff(DIGEST_LEN as nat);
}

/// Under the all-`0xFF` target the sequential search stops at nonce one,
/// given that a digest is thirty-two bytes wide.
pub proof fn lemma_max_target_first_nonce(
    input: Seq<u8>,
    max_nonce: u64,
    r: Result<SearchResult, SearchError>,
)
    requires
        max_nonce >= 1,
        digest_of(input, 1).len() == DIGEST_LEN,
        search_post(input, max_target(), max_nonce, r),
    ensures
        r matches Ok(res) && res.nonce == 1 && res.found,
{
    lemma_max_target_accepts_all(digest_of(input, 1));
    assert(nonce_accepted(input, max_target(), 1));
}

/// Under the all-zero target a digest is accepted exactly when every byte
/// of it is zero.
pub proof fn lemma_zero_target_accepts_only_zero(digest: Seq<u8>)
    ensures
        accepts_spec(digest, zero_bytes(DIGEST_LEN as nat)) <==> forall|i: int|
            0 <= i < digest.len() ==> digest[i] == 0,
{
    lemma_be_value_zero(digest);
    lemma_be_value_zero(zero_bytes(DIGEST_LEN as nat));
}

/// Whether some byte of `d` is not zero.
pub open spec fn has_nonzero_byte(d: Seq<u8>) -> bool {
    exists|i: int| 0 <= i < d.len() && d[i] != 0
}

/// Under the all-zero target the sequential search reports exhaustion
/// exactly when no nonce up to the cutoff has an all-zero digest.
pub proof fn lemma_zero_target_exhausts(
    input: Seq<u8>,
    max_nonce: u64,
    r: Result<SearchResult, SearchError>,
)
    requires
        search_post(input, zero_bytes(DIGEST_LEN as nat), max_nonce, r),
    ensures
        r is Err <==> forall|m: u64|
            1 <= m <= max_nonce ==> has_nonzero_byte(#[trigger] digest_of(input, m)),
{
    let zero = zero_bytes(DIGEST_LEN as nat);
    match r {
        Ok(res) => {
            lemma_zero_target_accepts_only_zero(digest_of(input, res.nonce));
            assert(!has_nonzero_byte(digest_of(input, res.nonce)));
        },
        Err(_) => {
            assert forall|m: u64| 1 <= m <= max_nonce implies has_nonzero_byte(
                #[trigger] digest_of(input, m),
            ) by {
                assert(!nonce_accepted(input, zero, m));
                lemma_zero_target_accepts_only_zero(digest_of(input, m));
            }
        },
    }
}

/// Two runs of the sequential search on the same input, target and cutoff
/// return the same result.
pub proof fn lemma_search_deterministic(
    input: Seq<u8>,
    target: Seq<u8>,
    max_nonce: u64,
    r1: Result<SearchResult, SearchError>,
    r2: Result<SearchResult, SearchError>,
)
    requires
        search_post(input, target, max_nonce, r1),
        search_post(input, target, max_nonce, r2),
    ensures
        r1 == r2,
{
    match (r1, r2) {
        (Ok(a), Ok(b)) => {
            if a.nonce < b.nonce {
                assert(!nonce_accepted(input, target, a.nonce));
            } else if b.nonce < a.nonce {
                assert(!nonce_accepted(input, target, b.nonce));
            }
            assert(a.digest =~= b.digest);
        },
        (Ok(a), Err(_)) => {
            assert(!nonce_accepted(input, target, a.nonce));
        },
        (Err(_), Ok(b)) => {
            assert(!nonce_accepted(input, target, b.nonce));
        },
        (Err(_), Err(_)) => {},
    }
}

/// Output slots that the kernel never wrote read back as "not found" with
/// a zero nonce, and the verdict on such a result is `GpuNotFound`.
pub proof fn lemma_untouched_outputs_not_found(cpu: SearchResult, gpu: SearchResult)
    requires
        gpu.found == (zero_bytes(FOUND_LEN as nat)[0] != 0),
    ensures
        le_value(zero_bytes(NONCE_LEN as nat)) == 0,
        !gpu.found,
        outcome_of(cpu, gpu) == VerificationOutcome::GpuNotFound,
{
    let z = zero_bytes(NONCE_LEN as nat);
    assert(z.drop_first().drop_first().drop_first().drop_first().drop_first().drop_first()
        .drop_first().drop_first().len() == 0);
    reveal_with_fuel(le_value, 9);
}

/// When both engines found a digest and the digests are equal, the verdict
/// is `Match` whatever the nonces; differing nonces add the informational
/// `NonceMismatch`.
pub proof fn lemma_equal_digests_match(cpu: SearchResult, gpu: SearchResult)
    requires
        cpu.found,
        gpu.found,
        cpu.digest@ == gpu.digest@,
    ensures
        report_of(cpu, gpu).outcome == VerificationOutcome::Match,
        report_of(cpu, gpu).note == (if cpu.nonce != gpu.nonce {
            Some(VerificationOutcome::NonceMismatch)
        } else {
            None
        }),
{
}

} // verus!
