//! The count of the chips: what the answers to the enumeration request come
//! to.
//!
//! The chips answer one after the other. The count starts anew when the
//! driver begins to receive, each answer of a BM1387 adds one to it, and the
//! first answer of another chip ends the enumeration. Once the answers have
//! ceased the count is judged: a chain holds at least one chip and fewer
//! than `MAX_CHIPS_ON_CHAIN`.

use super::bm1387::{GetAddressReg, CHIP_REV_BM1387};
use super::{ChainState, MAX_CHIPS_ON_CHAIN};
use crate::error::Error;
use vstd::prelude::*;

verus! {

/// The books with the count of chips started anew.
pub open spec fn forgotten(state: ChainState) -> ChainState {
    ChainState { chip_count: 0, ..state }
}

/// What the answer of one chip comes to: a BM1387 is counted, as far as
/// the counter goes, and any other chip is an error that names the place
/// of the chip on the chain.
pub open spec fn detected(state: ChainState, addr_reg: GetAddressReg) -> (
    ChainState,
    Result<(), Error>,
) {
    if addr_reg.chip_rev != CHIP_REV_BM1387 {
        (
            state,
            Err(
                Error::ChipRevMismatch {
                    expected: CHIP_REV_BM1387,
                    got: addr_reg.chip_rev,
                    index: state.chip_count,
                },
            ),
        )
    } else if state.chip_count < usize::MAX {
        (ChainState { chip_count: (state.chip_count + 1) as usize, ..state }, Ok(()))
    } else {
        (state, Ok(()))
    }
}

/// The verdict on the count of chips.
pub open spec fn checked(state: ChainState) -> Result<(), Error> {
    if state.chip_count >= MAX_CHIPS_ON_CHAIN {
        Err(Error::TooManyChips)
    } else if state.chip_count == 0 {
        Err(Error::NoChips)
    } else {
        Ok(())
    }
}

/// What receiving the chips comes to when `answers` arrive, in this order,
/// before the answers cease: the count starts anew, and the answers are
/// taken in one by one up to the first that is an error.
pub open spec fn received(state: ChainState, answers: Seq<GetAddressReg>) -> (
    ChainState,
    Result<(), Error>,
)
    decreases answers.len(),
{
    if answers.len() == 0 {
        (forgotten(state), Ok(()))
    } else {
        let before = received(state, answers.drop_last());
        if before.1 is Err {
            before
        } else {
            detected(before.0, answers.last())
        }
    }
}

/// What an enumeration comes to when `answers` arrive: the chips are
/// received, and if that went well their count is judged.
pub open spec fn enumerated(state: ChainState, answers: Seq<GetAddressReg>) -> (
    ChainState,
    Result<(), Error>,
) {
    let after = received(state, answers);
    if after.1 is Err {
        after
    } else {
        (after.0, checked(after.0))
    }
}

/// Whether every one of `answers` comes from a BM1387.
pub open spec fn all_bm1387(answers: Seq<GetAddressReg>) -> bool {
    forall|i: int| 0 <= i < answers.len() ==> (#[trigger] answers[i]).chip_rev == CHIP_REV_BM1387
}

/// The chips are received without error exactly when each answer comes
/// from a BM1387. The count is then the number of answers, as far as the
/// counter goes, and nothing else in the books has changed.
pub proof fn lemma_received_counts_the_answers(state: ChainState, answers: Seq<GetAddressReg>)
    ensures
        received(state, answers).1 is Ok <==> all_bm1387(answers),
        received(state, answers).1 is Ok ==> received(state, answers).0 == (ChainState {
            chip_count: if answers.len() <= usize::MAX {
                answers.len() as usize
            } else {
                usize::MAX
            },
            ..state
        }),
    decreases answers.len(),
{
    if answers.len() > 0 {
        let head = answers.drop_last();
        lemma_received_counts_the_answers(state, head);
        if all_bm1387(answers) {
            assert forall|i: int| 0 <= i < head.len() implies (#[trigger] head[i]).chip_rev
                == CHIP_REV_BM1387 by {
                assert(head[i] == answers[i]);
            }
        }
        if received(state, answers).1 is Ok {
            assert forall|i: int| 0 <= i < answers.len() implies (#[trigger] answers[i]).chip_rev
                == CHIP_REV_BM1387 by {
                if i < head.len() {
                    assert(head[i] == answers[i]);
                } else {
                    assert(answers[i] == answers.last());
                }
            }
        }
    }
}

/// An enumeration succeeds exactly when at least one chip and fewer than
/// `MAX_CHIPS_ON_CHAIN` answer and each of them is a BM1387. The count of
/// chips is then the number of answers, so it lies within the same bounds,
/// and nothing else in the books has changed.
pub proof fn lemma_enumeration_counts_the_answers(state: ChainState, answers: Seq<GetAddressReg>)
    ensures
        enumerated(state, answers).1 is Ok <==> 0 < answers.len() < MAX_CHIPS_ON_CHAIN
            && all_bm1387(answers),
        enumerated(state, answers).1 is Ok ==> {
            &&& 0 < enumerated(state, answers).0.chip_count < MAX_CHIPS_ON_CHAIN
            &&& enumerated(state, answers).0.chip_count == answers.len()
            &&& enumerated(state, answers).0 == (ChainState {
                chip_count: answers.len() as usize,
                ..state
            })
        },
{
    lemma_received_counts_the_answers(state, answers);
}

/// An enumeration fails at the first answer that comes from another chip
/// than a BM1387, with an error that names the chip and its place, and
/// with the chips before it counted.
pub proof fn lemma_enumeration_stops_at_a_foreign_chip(
    state: ChainState,
    answers: Seq<GetAddressReg>,
    place: int,
)
    requires
        0 <= place < answers.len(),
        place <= usize::MAX,
        all_bm1387(answers.take(place)),
        answers[place].chip_rev != CHIP_REV_BM1387,
    ensures
        enumerated(state, answers) == (
            ChainState { chip_count: place as usize, ..state },
            Err::<(), Error>(
                Error::ChipRevMismatch {
                    expected: CHIP_REV_BM1387,
                    got: answers[place].chip_rev,
                    index: place as usize,
                },
            ),
        ),
    decreases answers.len(),
{
    let head = answers.drop_last();
    if place == answers.len() - 1 {
        assert(head =~= answers.take(place));
        lemma_received_counts_the_answers(state, head);
    } else {
        assert(head.take(place) =~= answers.take(place));
        assert(head[place] == answers[place]);
        lemma_enumeration_stops_at_a_foreign_chip(state, head, place);
    }
}

} // verus!
