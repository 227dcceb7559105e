use vstd::prelude::*;
use crate::difficulty::DIGEST_LEN;
use crate::encoding::{le_bytes, le_encode, le_decode_u64, le_value};
use crate::search::SearchResult;

verus! {

/// Binding slot of the input bytes.
pub const SLOT_INPUT: usize = 0;
/// Binding slot of the digest that the kernel writes back.
pub const SLOT_OUTPUT_DIGEST: usize = 1;
/// Binding slot of the difficulty target.
pub const SLOT_DIFFICULTY: usize = 2;
/// Binding slot of the input length, a 32-bit little-endian integer.
pub const SLOT_INPUT_LENGTH: usize = 3;
/// Binding slot of the nonce that the kernel writes back.
pub const SLOT_OUTPUT_NONCE: usize = 4;
/// Binding slot of the one-byte found flag.
pub const SLOT_FOUND: usize = 5;
/// Binding slot of the total thread count, a 64-bit little-endian integer.
pub const SLOT_TOTAL_THREADS: usize = 6;
/// Number of buffers bound for one dispatch.
pub const SLOT_COUNT: usize = 7;

/// Width of the nonce written back by the kernel.
pub const NONCE_LEN: usize = 8;
/// Width of the found flag written back by the kernel.
pub const FOUND_LEN: usize = 1;

/// Threads in one group in the standard grid.
pub const THREADS_PER_GROUP: u64 = 256;
/// Groups in the standard grid.
pub const NUM_GROUPS: u64 = 1;

/// The nonce that thread `thread` of a grid of `total_threads` tries in its
/// round `round`: each thread walks the nonce space with stride equal to the
/// thread count.
pub open spec fn strided_nonce(thread: nat, round: nat, total_threads: nat) -> nat {
    thread + round * total_threads
}

/// The strided walks of the threads of one grid cover every nonce exactly
/// once: a nonce is tried by thread `nonce % total_threads` in round
/// `nonce / total_threads`, and by no other thread or round.
pub proof fn lemma_strides_partition(nonce: nat, total_threads: nat, thread: nat, round: nat)
    requires
        total_threads > 0,
    ensures
        strided_nonce(nonce % total_threads, nonce / total_threads, total_threads) == nonce,
        thread < total_threads && strided_nonce(thread, round, total_threads) == nonce ==> thread
            == nonce % total_threads && round == nonce / total_threads,
{
    vstd::arithmetic::div_mod::lemma_fundamental_div_mod(nonce as int, total_threads as int);
    assert(strided_nonce(nonce % total_threads, nonce / total_threads, total_threads) == nonce)
        by (nonlinear_arith)
        requires
            nonce == total_threads * (nonce / total_threads) + nonce % total_threads,
    ;
    if thread < total_threads && strided_nonce(thread, round, total_threads) == nonce {
        vstd::arithmetic::div_mod::lemma_fundamental_div_mod_converse(
            nonce as int,
            total_threads as int,
            round as int,
            thread as int,
        );
    }
}

/// `n` zero bytes.
pub open spec fn zero_bytes(n: nat) -> Seq<u8> {
    Seq::new(n, |i: int| 0u8)
}

/// The contents of binding slot `slot` before the kernel runs: the inputs
/// as given, the scalars in little-endian order, the output slots zeroed so
/// that a kernel that writes nothing reads back as "not found".
pub open spec fn slot_image(input: Seq<u8>, target: Seq<u8>, total_threads: u64, slot: int) -> Seq<
    u8,
> {
    if slot == SLOT_INPUT {
        input
    } else if slot == SLOT_OUTPUT_DIGEST {
        zero_bytes(DIGEST_LEN as nat)
    } else if slot == SLOT_DIFFICULTY {
        target
    } else if slot == SLOT_INPUT_LENGTH {
        le_bytes(input.len(), 4)
    } else if slot == SLOT_OUTPUT_NONCE {
        zero_bytes(NONCE_LEN as nat)
    } else if slot == SLOT_FOUND {
        zero_bytes(FOUND_LEN as nat)
    } else {
        le_bytes(total_threads as nat, 8)
    }
}

/// Everything the host hands the device for one dispatch: the initial
/// contents of each buffer, indexed by binding slot, and the grid shape.
pub struct DispatchPlan {
    pub buffers: Vec<Vec<u8>>,
    pub threads_per_group: u64,
    pub num_groups: u64,
    pub total_threads: u64,
}

/// Why a dispatch cannot be planned.
#[derive(Clone, Copy, Debug, PartialEq, Eq, Structural)]
pub enum DispatchError {
    /// The input length does not fit the 32-bit length slot.
    InputTooLong,
    /// The grid has no thread.
    EmptyGrid,
    /// The total thread count does not fit in 64 bits.
    GridTooLarge,
}

/// Why the buffers read back after a dispatch cannot form a result.
#[derive(Clone, Copy, Debug, PartialEq, Eq, Structural)]
pub enum ReadbackError {
    DigestTooShort,
    NonceTooShort,
    FoundMissing,
}

fn zeroed(n: usize) -> (r: Vec<u8>)
    ensures
        r@ == zero_bytes(n as nat),
{
    let mut out: Vec<u8> = Vec::new();
    let mut i: usize = 0;
    while i < n
        invariant
            i <= n,
            out@ == zero_bytes(i as nat),
        decreases n - i,
    {
        out.push(0u8);
        i = i + 1;
        assert(out@ =~= zero_bytes(i as nat));
    }
    out
}

/// Lays out the buffers of one dispatch over a grid of
/// `threads_per_group * num_groups` threads.
pub fn plan_dispatch(
    input: &[u8],
    target: &[u8; DIGEST_LEN],
    threads_per_group: u64,
    num_groups: u64,
) -> (r: Result<DispatchPlan, DispatchError>)
    ensures
        r == Err::<DispatchPlan, DispatchError>(DispatchError::InputTooLong) <==> input@.len()
            > u32::MAX,
        r == Err::<DispatchPlan, DispatchError>(DispatchError::EmptyGrid) <==> input@.len()
            <= u32::MAX && (threads_per_group == 0 || num_groups == 0),
        r == Err::<DispatchPlan, DispatchError>(DispatchError::GridTooLarge) <==> input@.len()
            <= u32::MAX && threads_per_group != 0 && num_groups != 0 && threads_per_group
            * num_groups > u64::MAX,
        r matches Ok(p) ==> {
            &&& p.threads_per_group == threads_per_group
            &&& p.num_groups == num_groups
            &&& p.total_threads == threads_per_group * num_groups
            &&& p.buffers@.len() == SLOT_COUNT
            &&& forall|s: int|
                0 <= s < SLOT_COUNT ==> #[trigger] p.buffers@[s]@ == slot_image(
                    input@,
                    target@,
                    p.total_threads,
                    s,
                )
        },
{
    if input.len() > u32::MAX as usize {
        return Err(DispatchError::InputTooLong);
    }
    if threads_per_group == 0 || num_groups == 0 {
        return Err(DispatchError::EmptyGrid);
    }
    let total_threads = match threads_per_group.checked_mul(num_groups) {
        Some(t) => t,
        None => {
            return Err(DispatchError::GridTooLarge);
        },
    };
    let mut buffers: Vec<Vec<u8>> = Vec::new();
    buffers.push(vstd::slice::slice_to_vec(input));
    buffers.push(zeroed(DIGEST_LEN));
    buffers.push(vstd::slice::slice_to_vec(target.as_slice()));
    buffers.push(le_encode(input.len() as u64, 4));
    buffers.push(zeroed(NONCE_LEN));
    buffers.push(zeroed(FOUND_LEN));
    buffers.push(le_encode(total_threads, 8));
    let plan = DispatchPlan { buffers, threads_per_group, num_groups, total_threads };
    assert forall|s: int| 0 <= s < SLOT_COUNT implies #[trigger] plan.buffers@[s]@ == slot_image(
        input@,
        target@,
        total_threads,
        s,
    ) by {}
    Ok(plan)
}

/// Builds the result of a dispatch from the buffers read back after it: the
/// first thirty-two bytes of the digest slot, the first eight bytes of the
/// nonce slot read little-endian, and the first byte of the found slot.
pub fn read_result(digest: &[u8], nonce: &[u8], found: &[u8]) -> (r: Result<
    SearchResult,
    ReadbackError,
>)
    ensures
        r == Err::<SearchResult, ReadbackError>(ReadbackError::DigestTooShort) <==> digest@.len()
            < DIGEST_LEN,
        r == Err::<SearchResult, ReadbackError>(ReadbackError::NonceTooShort) <==> digest@.len()
            >= DIGEST_LEN && nonce@.len() < NONCE_LEN,
        r == Err::<SearchResult, ReadbackError>(ReadbackError::FoundMissing) <==> digest@.len()
            >= DIGEST_LEN && nonce@.len() >= NONCE_LEN && found@.len() < FOUND_LEN,
        r matches Ok(res) ==> {
            &&& res.digest@ == digest@.subrange(0, DIGEST_LEN as int)
            &&& res.nonce as nat == le_value(nonce@.subrange(0, NONCE_LEN as int))
            &&& res.found == (found@[0] != 0)
        },
{
    if digest.len() < DIGEST_LEN {
        return Err(ReadbackError::DigestTooShort);
    }
    let n = match le_decode_u64(nonce) {
        Some(v) => v,
        None => {
            return Err(ReadbackError::NonceTooShort);
        },
    };
    if found.len() < FOUND_LEN {
        return Err(ReadbackError::FoundMissing);
    }
    let mut d: [u8; DIGEST_LEN] = [0u8; DIGEST_LEN];
    let mut i: usize = 0;
    while i < DIGEST_LEN
        invariant
            i <= DIGEST_LEN,
            digest@.len() >= DIGEST_LEN,
            d@.len() == DIGEST_LEN,
            forall|j: int| 0 <= j < i ==> d@[j] == digest@[j],
        decreases DIGEST_LEN - i,
    {
        d[i] = digest[i];
        i = i + 1;
    }
    assert(d@ =~= digest@.subrange(0, DIGEST_LEN as int));
    Ok(SearchResult { digest: d, nonce: n, found: found[0] != 0 })
}

} // verus!
