use vstd::prelude::*;
use crate::difficulty::{accepts, accepts_spec, DIGEST_LEN};
use crate::hash::{digest_for_nonce, digest_of};

verus! {

/// What one search run returns: the winning digest and nonce, and whether
/// an accepted digest was found at all.
#[derive(Clone, Copy, Debug)]
pub struct SearchResult {
    pub digest: [u8; DIGEST_LEN],
    pub nonce: u64,
    pub found: bool,
}

/// Compares two digests byte by byte.
pub fn digests_equal(a: &[u8; DIGEST_LEN], b: &[u8; DIGEST_LEN]) -> (r: bool)
    ensures
        r == (a@ == b@),
{
    let mut i: usize = 0;
    while i < DIGEST_LEN
        invariant
            i <= DIGEST_LEN,
            a@.len() == DIGEST_LEN,
            b@.len() == DIGEST_LEN,
            forall|j: int| 0 <= j < i ==> a@[j] == b@[j],
        decreases DIGEST_LEN - i,
    {
        if a[i] != b[i] {
            return false;
        }
        i = i + 1;
    }
    assert(a@ =~= b@);
    true
}

impl PartialEq for SearchResult {
    fn eq(&self, other: &SearchResult) -> (r: bool) {
        digests_equal(&self.digest, &other.digest) && self.nonce == other.nonce && self.found
            == other.found
    }
}

impl Eq for SearchResult {

}

impl vstd::std_specs::cmp::PartialEqSpecImpl for SearchResult {
    open spec fn obeys_eq_spec() -> bool {
        true
    }

    open spec fn eq_spec(&self, other: &SearchResult) -> bool {
        &&& self.digest@ == other.digest@
        &&& self.nonce == other.nonce
        &&& self.found == other.found
    }
}

/// Why the sequential search gave up.
#[derive(Clone, Copy, Debug, PartialEq, Eq, Structural)]
pub enum SearchError {
    /// No nonce from one up to the cutoff yields an accepted digest.
    Exhausted,
}

/// Whether the digest of `nonce` for `input` is accepted under `target`.
pub open spec fn nonce_accepted(input: Seq<u8>, target: Seq<u8>, nonce: u64) -> bool {
    accepts_spec(digest_of(input, nonce), target)
}

/// What the sequential search returns for `input`, `target` and the cutoff
/// `max_nonce`: the least accepted nonce from one on, with its digest, or
/// exhaustion when every nonce up to the cutoff is rejected.
pub open spec fn search_post(
    input: Seq<u8>,
    target: Seq<u8>,
    max_nonce: u64,
    r: Result<SearchResult, SearchError>,
) -> bool {
    match r {
        Ok(res) => {
            &&& res.found
            &&& 1 <= res.nonce <= max_nonce
            &&& res.digest@ == digest_of(input, res.nonce)
            &&& nonce_accepted(input, target, res.nonce)
            &&& forall|m: u64| 1 <= m < res.nonce ==> !nonce_accepted(input, target, m)
        },
        Err(e) => {
            &&& e == SearchError::Exhausted
            &&& forall|m: u64| 1 <= m <= max_nonce ==> !nonce_accepted(input, target, m)
        },
    }
}

/// Tries the nonces `1, 2, ..., max_nonce` in order and returns the first
/// whose digest is accepted under `target`.
pub fn search_cpu(input: &[u8], target: &[u8; DIGEST_LEN], max_nonce: u64) -> (r: Result<
    SearchResult,
    SearchError,
>)
    ensures
        search_post(input@, target@, max_nonce, r),
{
    if max_nonce == 0 {
        return Err(SearchError::Exhausted);
    }
    let mut nonce: u64 = 1;
    loop
        invariant
            1 <= nonce <= max_nonce,
            forall|m: u64| 1 <= m < nonce ==> !nonce_accepted(input@, target@, m),
        decreases max_nonce - nonce,
    {
        let digest = digest_for_nonce(input, nonce);
        if accepts(&digest, target) {
            return Ok(SearchResult { digest, nonce, found: true });
        }
        if nonce == max_nonce {
            return Err(SearchError::Exhausted);
        }
        nonce = nonce + 1;
    }
}

} // verus!
