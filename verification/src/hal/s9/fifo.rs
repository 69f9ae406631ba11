//! What travels through the FIFOs of the IP core.
//!
//! The command FIFOs carry the bytes of a chip frame as 32-bit words, least
//! significant byte first. The work TX FIFO takes a mining work as a run of
//! words; the work RX FIFO gives two words for each nonce found.

use super::endian::{le_bytes, le_value};
use super::op::Op;
use crate::error::{Error, Fifo};
use crate::hal::MiningWork;
use vstd::prelude::*;

verus! {

/// Pause before the second look at a receive FIFO that was found empty, in
/// milliseconds.
pub const RX_BACKOFF_MS: u64 = 5;

/// Number of words of a mining work ahead of its midstates.
pub const WORK_HEADER_WORDS: usize = 4;

/// Bits of the second result word that make up the result ID.
pub const RESULT_ID_MASK: u32 = 0x00ff_ffff;

/// The words that carry the bytes of a command.
pub open spec fn cmd_words(cmd: Seq<u8>) -> Seq<u32> {
    Seq::new((cmd.len() / 4) as nat, |i: int| le_value(cmd.subrange(4 * i, 4 * i + 4)))
}

/// The plan that sends a command, and then waits for the FIFO to drain if
/// `wait` is set.
pub open spec fn ctl_cmd_plan(cmd: Seq<u8>, wait: bool) -> Seq<Op> {
    let writes = Seq::new((cmd.len() / 4) as nat, |i: int| Op::WriteCmdTx(cmd_words(cmd)[i]));
    if wait {
        writes.push(Op::DrainCmdTx)
    } else {
        writes
    }
}

/// The bytes of a response that arrived as two words: the six bytes of the
/// frame, without the checksum and the pad byte that follow them.
pub open spec fn resp_frame(word1: u32, word2: u32) -> Seq<u8> {
    (le_bytes(word1) + le_bytes(word2)).subrange(0, 6)
}

/// Word `i` of the submission of `work` under `work_id`: the ID, three
/// header fields, then each midstate from its last word to its first.
pub open spec fn work_word(work_id: u32, work: MiningWork, i: int) -> u32 {
    if i == 0 {
        work_id
    } else if i == 1 {
        work.nbits
    } else if i == 2 {
        work.ntime
    } else if i == 3 {
        work.merkle_root_lsw
    } else {
        work.midstates@[(i - 4) / 8].words@[7 - (i - 4) % 8]
    }
}

/// Number of words of the submission of `work`.
pub open spec fn work_len(work: MiningWork) -> nat {
    (4 + 8 * work.midstates@.len()) as nat
}

/// The words of the submission of `work` under `work_id`.
pub open spec fn work_words(work_id: u32, work: MiningWork) -> Seq<u32> {
    Seq::new(work_len(work), |i: int| work_word(work_id, work, i))
}

/// The plan of a submission: the words in order.
pub open spec fn work_plan(work_id: u32, work: MiningWork) -> Seq<Op> {
    Seq::new(work_len(work), |i: int| Op::WriteWorkTx(work_word(work_id, work, i)))
}

/// What follows the first look at a receive FIFO: a pause if it was empty.
pub fn rx_backoff(empty: bool) -> (plan: Vec<Op>)
    ensures
        plan@ == if empty {
            seq![Op::Sleep(RX_BACKOFF_MS)]
        } else {
            Seq::<Op>::empty()
        },
{
    let mut plan: Vec<Op> = Vec::new();
    if empty {
        plan.push(Op::Sleep(RX_BACKOFF_MS));
    }
    plan
}

/// What follows the second look at a receive FIFO: a word is read unless
/// it is still empty, which is a timeout.
pub fn rx_ready(fifo: Fifo, empty: bool) -> (r: Result<(), Error>)
    ensures
        r == if empty {
            Err::<(), Error>(Error::Timeout(fifo))
        } else {
            Ok::<(), Error>(())
        },
{
    if empty {
        Err(Error::Timeout(fifo))
    } else {
        Ok(())
    }
}

/// What the first of the two reads of a response or a result means: a
/// timeout says that nothing has arrived, any other error is passed on,
/// and after a word the second read is due.
pub fn first_word(first: Result<u32, Error>) -> (r: Result<Option<u32>, Error>)
    ensures
        r == match first {
            Ok(word) => Ok::<Option<u32>, Error>(Some(word)),
            Err(Error::Timeout(_)) => Ok::<Option<u32>, Error>(None),
            Err(e) => Err::<Option<u32>, Error>(e),
        },
{
    match first {
        Ok(word) => Ok(Some(word)),
        Err(Error::Timeout(_)) => Ok(None),
        Err(e) => Err(e),
    }
}

} // verus!
