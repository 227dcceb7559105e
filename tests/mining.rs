use nonce_miner::crosscheck::{compare_results, verify, VerificationOutcome};
use nonce_miner::difficulty::accepts;
use nonce_miner::dispatch::{
    plan_dispatch, read_result, DispatchError, ReadbackError, NUM_GROUPS, SLOT_COUNT,
    SLOT_DIFFICULTY, SLOT_FOUND, SLOT_INPUT, SLOT_INPUT_LENGTH, SLOT_OUTPUT_DIGEST,
    SLOT_OUTPUT_NONCE, SLOT_TOTAL_THREADS, THREADS_PER_GROUP,
};
use nonce_miner::encoding::{le_decode_u64, le_encode};
use nonce_miner::hash::digest_for_nonce;
use nonce_miner::search::{search_cpu, SearchError, SearchResult};

fn hex(bytes: &[u8]) -> String {
    bytes.iter().map(|b| format!("{:02x}", b)).collect()
}

fn target_with_prefix(prefix: &[u8]) -> [u8; 32] {
    let mut t = [0xFFu8; 32];
    t[..prefix.len()].copy_from_slice(prefix);
    t
}

const EASY_NONCE: u64 = 172;
const EASY_DIGEST: &str = "00beaa95f46249922c195f43a964927248a37b418c8203ab2701454e643e56c1";

#[test]
fn accepts_digest_below_target_in_byte_order() {
    let target = target_with_prefix(&[0, 0]);
    let digest = [0u8; 32];
    assert!(accepts(&digest, &target));
}

#[test]
fn accepts_equal_digest_and_target() {
    let target = target_with_prefix(&[0, 0, 0x12]);
    assert!(accepts(&target, &target));
}

#[test]
fn accepts_rejects_digest_above_target() {
    let target = target_with_prefix(&[0, 0]);
    let mut digest = [0u8; 32];
    digest[1] = 1;
    assert!(!accepts(&digest, &target));
}

#[test]
fn accepts_decides_on_first_differing_byte() {
    let mut target = [0u8; 32];
    target[3] = 2;
    let mut digest = [0xFFu8; 32];
    digest[0] = 0;
    digest[1] = 0;
    digest[2] = 0;
    digest[3] = 1;
    assert!(accepts(&digest, &target));
    digest[3] = 3;
    digest[4] = 0;
    assert!(!accepts(&digest, &target));
}

#[test]
fn le_encode_writes_least_significant_first() {
    assert_eq!(le_encode(0x0102030405060708, 8), vec![8, 7, 6, 5, 4, 3, 2, 1]);
    assert_eq!(le_encode(0x0102030405060708, 4), vec![8, 7, 6, 5]);
    assert_eq!(le_encode(300, 4), vec![44, 1, 0, 0]);
    assert_eq!(le_encode(7, 0), Vec::<u8>::new());
}

#[test]
fn le_decode_reads_first_eight_bytes() {
    assert_eq!(le_decode_u64(&[8, 7, 6, 5, 4, 3, 2, 1, 99]), Some(0x0102030405060708));
    assert_eq!(le_decode_u64(&[0xFF; 8]), Some(u64::MAX));
    assert_eq!(le_decode_u64(&[1, 2, 3, 4, 5, 6, 7]), None);
}

#[test]
fn digest_for_nonce_hashes_input_then_nonce() {
    let d = digest_for_nonce(&[0u8; 32], 1);
    assert_eq!(hex(&d), "210e5b4204cc718ae577ed39be7024eb237245ba18c97d96a0c9e465fe617f5c");
}

#[test]
fn search_cpu_max_target_stops_at_nonce_one() {
    let r = search_cpu(&[0u8; 32], &[0xFF; 32], 10).unwrap();
    assert!(r.found);
    assert_eq!(r.nonce, 1);
    assert_eq!(hex(&r.digest), "210e5b4204cc718ae577ed39be7024eb237245ba18c97d96a0c9e465fe617f5c");
}

#[test]
fn search_cpu_returns_first_accepted_nonce() {
    let input = [0u8; 32];
    let target = target_with_prefix(&[0]);
    let r = search_cpu(&input, &target, 1_000_000).unwrap();
    assert!(r.found);
    assert_eq!(r.nonce, EASY_NONCE);
    assert_eq!(hex(&r.digest), EASY_DIGEST);
    assert!(accepts(&r.digest, &target));
    for n in 1..r.nonce {
        assert!(!accepts(&digest_for_nonce(&input, n), &target));
    }
}

#[test]
fn search_cpu_cutoff_below_first_match_exhausts() {
    let target = target_with_prefix(&[0]);
    assert_eq!(search_cpu(&[0u8; 32], &target, EASY_NONCE - 1), Err(SearchError::Exhausted));
    assert!(search_cpu(&[0u8; 32], &target, EASY_NONCE).is_ok());
}

#[test]
fn search_cpu_zero_target_exhausts_bounded_range() {
    let r = search_cpu(b"challenge and key", &[0u8; 32], 1 << 16);
    assert_eq!(r, Err(SearchError::Exhausted));
}

#[test]
fn search_cpu_zero_cutoff_exhausts() {
    assert_eq!(search_cpu(&[1, 2, 3], &[0xFF; 32], 0), Err(SearchError::Exhausted));
}

#[test]
fn search_cpu_is_repeatable() {
    let input = b"some input bytes";
    let target = target_with_prefix(&[0]);
    let a = search_cpu(input, &target, 1_000_000);
    let b = search_cpu(input, &target, 1_000_000);
    assert!(a.is_ok());
    assert_eq!(a, b);
}

#[test]
fn plan_dispatch_lays_out_every_slot() {
    let target = target_with_prefix(&[0, 0]);
    let plan = plan_dispatch(b"abc", &target, THREADS_PER_GROUP, NUM_GROUPS).unwrap();
    assert_eq!(plan.total_threads, 256);
    assert_eq!(plan.threads_per_group, 256);
    assert_eq!(plan.num_groups, 1);
    assert_eq!(plan.buffers.len(), SLOT_COUNT);
    assert_eq!(plan.buffers[SLOT_INPUT], b"abc".to_vec());
    assert_eq!(plan.buffers[SLOT_OUTPUT_DIGEST], vec![0u8; 32]);
    assert_eq!(plan.buffers[SLOT_DIFFICULTY], target.to_vec());
    assert_eq!(plan.buffers[SLOT_INPUT_LENGTH], vec![3, 0, 0, 0]);
    assert_eq!(plan.buffers[SLOT_OUTPUT_NONCE], vec![0u8; 8]);
    assert_eq!(plan.buffers[SLOT_FOUND], vec![0u8]);
    assert_eq!(plan.buffers[SLOT_TOTAL_THREADS], vec![0, 1, 0, 0, 0, 0, 0, 0]);
}

#[test]
fn plan_dispatch_multiplies_grid() {
    let plan = plan_dispatch(&[], &[0xFF; 32], 64, 5).unwrap();
    assert_eq!(plan.total_threads, 320);
    assert_eq!(plan.buffers[SLOT_INPUT_LENGTH], vec![0, 0, 0, 0]);
    assert_eq!(plan.buffers[SLOT_TOTAL_THREADS], vec![64, 1, 0, 0, 0, 0, 0, 0]);
}

#[test]
fn plan_dispatch_rejects_empty_grid() {
    assert!(matches!(plan_dispatch(b"x", &[0; 32], 0, 1), Err(DispatchError::EmptyGrid)));
    assert!(matches!(plan_dispatch(b"x", &[0; 32], 256, 0), Err(DispatchError::EmptyGrid)));
}

#[test]
fn plan_dispatch_rejects_oversized_grid() {
    assert!(matches!(
        plan_dispatch(b"x", &[0; 32], u64::MAX, 2),
        Err(DispatchError::GridTooLarge)
    ));
}

#[test]
fn read_result_decodes_written_slots() {
    let digest: Vec<u8> = (0u8..32).collect();
    let r = read_result(&digest, &[0xAC, 0, 0, 0, 0, 0, 0, 0, 5, 5], &[1]).unwrap();
    assert_eq!(r.digest.to_vec(), digest);
    assert_eq!(r.nonce, 172);
    assert!(r.found);
}

#[test]
fn read_result_rejects_short_buffers() {
    assert_eq!(read_result(&[0; 31], &[0; 8], &[1]), Err(ReadbackError::DigestTooShort));
    assert_eq!(read_result(&[0; 32], &[0; 7], &[1]), Err(ReadbackError::NonceTooShort));
    assert_eq!(read_result(&[0; 32], &[0; 8], &[]), Err(ReadbackError::FoundMissing));
}

fn device_result(digest: &[u8], nonce: u64, found: bool) -> SearchResult {
    read_result(digest, &le_encode(nonce, 8), &[found as u8]).unwrap()
}

#[test]
fn verify_matches_agreeing_backends() {
    let input = [0u8; 32];
    let target = target_with_prefix(&[0]);
    let digest = digest_for_nonce(&input, EASY_NONCE);
    let gpu = device_result(&digest, EASY_NONCE, true);
    let (cpu, report) = verify(&input, &target, 1_000_000, &gpu).unwrap();
    assert_eq!(cpu.nonce, EASY_NONCE);
    assert_eq!(report.outcome, VerificationOutcome::Match);
    assert_eq!(report.note, None);
}

#[test]
fn verify_reports_nonce_difference_beside_match() {
    let input = [0u8; 32];
    let target = target_with_prefix(&[0]);
    let digest = digest_for_nonce(&input, EASY_NONCE);
    let gpu = device_result(&digest, 999, true);
    let (_, report) = verify(&input, &target, 1_000_000, &gpu).unwrap();
    assert_eq!(report.outcome, VerificationOutcome::Match);
    assert_eq!(report.note, Some(VerificationOutcome::NonceMismatch));
}

#[test]
fn verify_reports_gpu_not_found_for_untouched_outputs() {
    let input = [0u8; 32];
    let target = target_with_prefix(&[0]);
    let plan = plan_dispatch(&input, &target, THREADS_PER_GROUP, NUM_GROUPS).unwrap();
    let gpu = read_result(
        &plan.buffers[SLOT_OUTPUT_DIGEST],
        &plan.buffers[SLOT_OUTPUT_NONCE],
        &plan.buffers[SLOT_FOUND],
    )
    .unwrap();
    assert!(!gpu.found);
    assert_eq!(gpu.nonce, 0);
    let (_, report) = verify(&input, &target, 1_000_000, &gpu).unwrap();
    assert_eq!(report.outcome, VerificationOutcome::GpuNotFound);
    assert_eq!(report.note, None);
}

#[test]
fn compare_results_reports_digest_mismatch() {
    let input = [0u8; 32];
    let cpu = search_cpu(&input, &[0xFF; 32], 1).unwrap();
    let gpu = device_result(&digest_for_nonce(&input, 2), 2, true);
    let report = compare_results(&cpu, &gpu);
    assert_eq!(report.outcome, VerificationOutcome::DigestMismatch);
    assert_eq!(report.note, None);
}

#[test]
fn verify_reports_cpu_exhaustion() {
    let gpu = device_result(&[0u8; 32], 0, false);
    assert_eq!(verify(&[0u8; 32], &[0u8; 32], 100, &gpu), Err(SearchError::Exhausted));
}
