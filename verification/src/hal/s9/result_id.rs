//! Layout of the result ID: the second word that the IP core delivers with
//! each nonce.
//!
//! ```text
//! bits [7:0]           solution index
//! bits [7+mbits:8]     midstate index
//! bits above           work ID
//! ```

use vstd::prelude::*;

verus! {

/// Bit position where the midstate index, and above it the work ID, starts.
pub const WORK_ID_OFFSET: u32 = 8;

/// Largest accepted value of the midstate count bits: 4 midstates per work.
pub const MAX_MIDSTATE_COUNT_BITS: u8 = 2;

/// Solution index in `result_id`.
pub open spec fn solution_idx(result_id: u32) -> u32 {
    result_id & 0xff
}

/// Midstate index in `result_id` when a work carries `1 << mbits` midstates.
pub open spec fn midstate_idx(result_id: u32, mbits: u32) -> u32 {
    (result_id >> 8) & (((1u32 << mbits) - 1) as u32)
}

/// Work ID in `result_id` when a work carries `1 << mbits` midstates.
pub open spec fn work_id(result_id: u32, mbits: u32) -> u32 {
    (result_id >> 8) >> mbits
}

/// The word that holds the three given fields.
pub open spec fn compose(work_id: u32, midstate_idx: u32, solution_idx: u32, mbits: u32) -> u32 {
    (work_id << ((8 + mbits) as u32)) | (midstate_idx << 8) | solution_idx
}

/// The three fields partition the word: each stays within its width, and
/// put back in place they give the word again.
pub proof fn lemma_fields_partition_word(result_id: u32, mbits: u32)
    requires
        mbits <= 2,
    ensures
        solution_idx(result_id) < 256,
        midstate_idx(result_id, mbits) < (1u32 << mbits),
        result_id == compose(
            work_id(result_id, mbits),
            midstate_idx(result_id, mbits),
            solution_idx(result_id),
            mbits,
        ),
{
    assert(result_id & 0xff < 256) by (bit_vector);
    assert(mbits <= 2 ==> (result_id >> 8) & (((1u32 << mbits) - 1) as u32) < (1u32 << mbits))
        by (bit_vector);
    assert(mbits <= 2 ==> result_id == ((((result_id >> 8) >> mbits) << ((8 + mbits) as u32)) | ((
    (result_id >> 8) & (((1u32 << mbits) - 1) as u32)) << 8) | (result_id & 0xff))) by (bit_vector);
}

} // verus!
