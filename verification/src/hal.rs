//! Types that the mining logic and a hardware backend exchange.

use vstd::prelude::*;

pub mod s9;

verus! {

/// Number of 32-bit words in a midstate.
pub const MIDSTATE_WORDS: usize = 8;

/// A SHA-256 midstate: the intermediate digest over the fixed first part
/// of a block header, as eight 32-bit words in the order in which they lie
/// in memory.
#[derive(Clone, Copy, Debug, PartialEq, Eq)]
pub struct Midstate {
    pub words: [u32; 8],
}

/// A unit of mining work.
#[derive(Clone, Debug, PartialEq, Eq)]
pub struct MiningWork {
    /// Difficulty target of the block header, in compact form.
    pub nbits: u32,
    /// Timestamp of the block header.
    pub ntime: u32,
    /// Least significant word of the merkle root.
    pub merkle_root_lsw: u32,
    /// One midstate per candidate header.
    pub midstates: Vec<Midstate>,
}

/// A nonce that the hardware found.
#[derive(Clone, Copy, Debug, PartialEq, Eq)]
pub struct MiningWorkResult {
    pub nonce: u32,
    /// Timestamp that the hardware rolled to, for hardware that rolls it.
    pub ntime: Option<u32>,
    /// Index of the midstate that the nonce belongs to.
    pub midstate_idx: usize,
    /// Identifies the work and the solution; the backend knows its layout.
    pub result_id: u32,
}

} // verus!
