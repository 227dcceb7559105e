use vstd::prelude::*;
use crate::difficulty::DIGEST_LEN;
use crate::search::{digests_equal, search_cpu, search_post, SearchError, SearchResult};

verus! {

/// How the two engines' results compare.
#[derive(Clone, Copy, Debug, PartialEq, Eq, Structural)]
pub enum VerificationOutcome {
    /// Both engines found a digest, and the digests are equal.
    Match,
    /// The digests differ, or the sequential result holds none.
    DigestMismatch,
    /// The digests agree but the nonces differ; reported beside `Match`.
    NonceMismatch,
    /// The device dispatch committed no accepted digest.
    GpuNotFound,
}

/// The verdict, and beside a `Match` the informational `NonceMismatch` when
/// the two engines settled on different nonces.
#[derive(Clone, Copy, Debug, PartialEq, Eq, Structural)]
pub struct VerificationReport {
    pub outcome: VerificationOutcome,
    pub note: Option<VerificationOutcome>,
}

/// The verdict on a sequential result `cpu` and a device result `gpu`.
pub open spec fn outcome_of(cpu: SearchResult, gpu: SearchResult) -> VerificationOutcome {
    if !gpu.found {
        VerificationOutcome::GpuNotFound
    } else if !cpu.found || cpu.digest@ != gpu.digest@ {
        VerificationOutcome::DigestMismatch
    } else {
        VerificationOutcome::Match
    }
}

/// The full report on `cpu` and `gpu`.
pub open spec fn report_of(cpu: SearchResult, gpu: SearchResult) -> VerificationReport {
    VerificationReport {
        outcome: outcome_of(cpu, gpu),
        note: if outcome_of(cpu, gpu) == VerificationOutcome::Match && cpu.nonce != gpu.nonce {
            Some(VerificationOutcome::NonceMismatch)
        } else {
            None
        },
    }
}

/// Compares a sequential result with a device result; nonces are not
/// required to agree for a `Match`.
pub fn compare_results(cpu: &SearchResult, gpu: &SearchResult) -> (r: VerificationReport)
    ensures
        r == report_of(*cpu, *gpu),
{
    let outcome = if !gpu.found {
        VerificationOutcome::GpuNotFound
    } else if !cpu.found || !digests_equal(&cpu.digest, &gpu.digest) {
        VerificationOutcome::DigestMismatch
    } else {
        VerificationOutcome::Match
    };
    let note = if outcome == VerificationOutcome::Match && cpu.nonce != gpu.nonce {
        Some(VerificationOutcome::NonceMismatch)
    } else {
        None
    };
    VerificationReport { outcome, note }
}

/// Runs the sequential search on `input` and `target` with cutoff
/// `max_nonce` and compares its result with the device result `gpu`;
/// returns the sequential result beside the report.
pub fn verify(input: &[u8], target: &[u8; DIGEST_LEN], max_nonce: u64, gpu: &SearchResult) -> (r:
    Result<(SearchResult, VerificationReport), SearchError>)
    ensures
        match r {
            Ok((cpu, report)) => search_post(input@, target@, max_nonce, Ok(cpu)) && report
                == report_of(cpu, *gpu),
            Err(e) => search_post(input@, target@, max_nonce, Err(e)),
        },
{
    match search_cpu(input, target, max_nonce) {
        Ok(cpu) => {
            let report = compare_results(&cpu, gpu);
            Ok((cpu, report))
        },
        Err(e) => Err(e),
    }
}

} // verus!
