//! The lazy ticker that keeps the voltage controller alive.
//!
//! The voltage controller cuts the power of the board unless it hears from
//! the driver about once per second. The ticker rides on the hardware calls
//! of the controller: the first call only notes the time, and a later one
//! sends a heartbeat when a second or more has passed since the note.
//! Times are nanoseconds of the wall clock.

use super::op::{Op, VoltageCmd};
use vstd::prelude::*;

verus! {

/// Time between two heartbeats, in nanoseconds.
pub const HEARTBEAT_PERIOD_NS: u128 = 1_000_000_000;

/// Whether the clock reads earlier than the time noted.
pub open spec fn clock_went_back(last: Option<u128>, now: u128) -> bool {
    last matches Some(t) && now < t
}

/// Whether a tick at `now` sends a heartbeat.
pub open spec fn due(last: Option<u128>, now: u128) -> bool {
    last matches Some(t) && now - t >= HEARTBEAT_PERIOD_NS
}

/// The time noted after a tick at `now`.
pub open spec fn noted(last: Option<u128>, now: u128) -> Option<u128> {
    if last is None || due(last, now) {
        Some(now)
    } else {
        last
    }
}

/// What a tick at `now` asks of the hardware.
pub open spec fn plan(last: Option<u128>, now: u128) -> Seq<Op> {
    if due(last, now) {
        seq![Op::Voltage(VoltageCmd::SendHeartBeat)]
    } else {
        Seq::empty()
    }
}

/// Of two ticks in a row that lie more than a period apart, the second
/// sends exactly one heartbeat, and notes its own time.
pub proof fn lemma_one_heartbeat_after_a_period(last: Option<u128>, first: u128, second: u128)
    requires
        !clock_went_back(last, first),
        second - first > HEARTBEAT_PERIOD_NS,
    ensures
        !clock_went_back(noted(last, first), second),
        plan(noted(last, first), second) == seq![Op::Voltage(VoltageCmd::SendHeartBeat)],
        noted(noted(last, first), second) == Some(second),
{
}

} // verus!
