//! The two lines that a plan can move: the reset line of the board and the
//! enable bit of the IP core.
//!
//! A board that is held in reset must have its IP core switched off. The
//! plans of the controller move the two lines in an order that keeps it so.

use super::bm1387::{Frame, SetChipAddressCmd, SetConfigCmd};
use super::fifo::ctl_cmd_plan;
use super::heartbeat;
use super::op::{Op, PinLevel};
use super::{
    assign_chip_addresses_plan, configure_hash_chain_plan, enter_reset_plan,
    enumerate_chips_plan, exit_reset_plan, inactivate_plan, init_plan, ip_core_init_plan, repeated,
    set_chip_address_plan, set_chip_pll_plan, set_pll_plan,
};
use vstd::prelude::*;

verus! {

/// Where the two lines stand.
pub struct Lines {
    pub rst_pin: PinLevel,
    pub ip_core_enabled: bool,
}

/// A board that is held in reset has its IP core switched off.
pub open spec fn core_off_in_reset(lines: Lines) -> bool {
    lines.rst_pin == PinLevel::Low ==> !lines.ip_core_enabled
}

/// Whether the operation moves one of the two lines.
pub open spec fn moves_a_line(op: Op) -> bool {
    op is EnableIpCore || op is SetRstPin
}

/// Where the lines stand once `op` is performed.
pub open spec fn after_op(lines: Lines, op: Op) -> Lines {
    match op {
        Op::EnableIpCore(on) => Lines { ip_core_enabled: on, ..lines },
        Op::SetRstPin(level) => Lines { rst_pin: level, ..lines },
        _ => lines,
    }
}

/// Where the lines stand once the first `n` operations of `plan` are
/// performed.
pub open spec fn after(lines: Lines, plan: Seq<Op>, n: nat) -> Lines
    decreases n,
{
    if n == 0 {
        lines
    } else {
        after_op(after(lines, plan, (n - 1) as nat), plan[n - 1])
    }
}

/// Where the lines stand at each point of the plan that brings up a board
/// which is out of reset at the start.
pub open spec fn during_init(start: Lines, n: nat) -> Lines {
    if n == 0 {
        start
    } else if n == 1 {
        Lines { rst_pin: PinLevel::High, ip_core_enabled: false }
    } else if n <= 10 {
        Lines { rst_pin: PinLevel::High, ip_core_enabled: true }
    } else if n == 11 {
        Lines { rst_pin: PinLevel::High, ip_core_enabled: false }
    } else if n <= 17 {
        Lines { rst_pin: PinLevel::Low, ip_core_enabled: false }
    } else if n == 18 {
        Lines { rst_pin: PinLevel::High, ip_core_enabled: false }
    } else {
        Lines { rst_pin: PinLevel::High, ip_core_enabled: true }
    }
}

/// The plan that brings up the board has 37 operations, of which six move
/// a line: the restart of the IP core at the start, and the way into reset
/// and out of it.
pub proof fn lemma_init_plan_line_moves(mbits: u8)
    ensures
        init_plan(mbits).len() == 37,
        init_plan(mbits)[0] == Op::EnableIpCore(false),
        init_plan(mbits)[1] == Op::EnableIpCore(true),
        init_plan(mbits)[10] == Op::EnableIpCore(false),
        init_plan(mbits)[11] == Op::SetRstPin(PinLevel::Low),
        init_plan(mbits)[17] == Op::SetRstPin(PinLevel::High),
        init_plan(mbits)[18] == Op::EnableIpCore(true),
        forall|i: int|
            0 <= i < 37 && i != 0 && i != 1 && i != 10 && i != 11 && i != 17 && i != 18
                ==> !moves_a_line(#[trigger] init_plan(mbits)[i]),
{
    let head = ip_core_init_plan(mbits) + seq![
        Op::Voltage(super::op::VoltageCmd::Reset),
        Op::Voltage(super::op::VoltageCmd::JumpFromLoaderToApp),
        Op::CheckVoltageCtrlVersion,
        Op::Voltage(super::op::VoltageCmd::SetVoltage(super::INIT_VOLTAGE)),
        Op::Voltage(super::op::VoltageCmd::EnableVoltage),
    ] + enter_reset_plan() + seq![
        Op::Voltage(super::op::VoltageCmd::DisableVoltage),
        Op::Sleep(super::INIT_DELAY_MS),
        Op::Voltage(super::op::VoltageCmd::EnableVoltage),
        Op::Sleep(super::POWER_UP_DELAY_MS),
        Op::HeartBeatTick,
    ] + exit_reset_plan() + seq![Op::Sleep(super::INIT_DELAY_MS)];
    let tail = enumerate_chips_plan() + seq![Op::SetPll] + configure_hash_chain_plan();
    assert(head.len() == 20);
    assert(inactivate_plan().len() == 2);
    assert(repeated(inactivate_plan(), 3).len() == 6) by {
        reveal_with_fuel(repeated, 4);
    }
    assert(enumerate_chips_plan().len() == 13);
    assert(configure_hash_chain_plan().len() == 3);
    assert(tail.len() == 17);
    assert(init_plan(mbits) =~= head + tail);
    assert forall|i: int| 0 <= i < 13 implies !moves_a_line(#[trigger] enumerate_chips_plan()[i]) by {
        lemma_commands_leave_the_lines(super::get_address_cmd().spec_pack(), false);
        lemma_commands_leave_the_lines((super::bm1387::InactivateFromChainCmd {  }).spec_pack(), false);
        let cmd = ctl_cmd_plan(super::get_address_cmd().spec_pack(), false);
        let off = inactivate_plan();
        assert(forall|j: int| 0 <= j < 2 ==> !moves_a_line(#[trigger] off[j]));
        reveal_with_fuel(repeated, 4);
        if i >= 4 && i < 10 {
            assert(enumerate_chips_plan()[i] == off[(i - 4) % 2]);
        }
    }
    assert forall|i: int| 0 <= i < 3 implies !moves_a_line(#[trigger] configure_hash_chain_plan()[i]) by {
        lemma_commands_leave_the_lines(
            (SetConfigCmd {
                chip_address: 0,
                to_all: true,
                register: super::bm1387::MISC_CONTROL_REG,
                value: super::hash_chain_misc_ctrl().spec_to_reg(),
            }).spec_pack(),
            true,
        );
    }
    assert forall|i: int|
        0 <= i < 37 && i != 0 && i != 1 && i != 10 && i != 11 && i != 17 && i != 18
            implies !moves_a_line(#[trigger] init_plan(mbits)[i]) by {
        if i < 20 {
            assert(init_plan(mbits)[i] == head[i]);
        } else if i < 33 {
            assert(init_plan(mbits)[i] == enumerate_chips_plan()[i - 20]);
        } else if i == 33 {
            assert(init_plan(mbits)[i] == Op::SetPll);
        } else {
            assert(init_plan(mbits)[i] == configure_hash_chain_plan()[i - 34]);
        }
    }
}

/// While the plan that brings up a board holds it in reset, the IP core is
/// switched off, given that the board is out of reset at the start.
pub proof fn lemma_init_keeps_core_off_in_reset(mbits: u8, start: Lines, n: nat)
    requires
        start.rst_pin == PinLevel::High,
        n <= init_plan(mbits).len(),
    ensures
        after(start, init_plan(mbits), n) == during_init(start, n),
        core_off_in_reset(after(start, init_plan(mbits), n)),
    decreases n,
{
    lemma_init_plan_line_moves(mbits);
    if n > 0 {
        lemma_init_keeps_core_off_in_reset(mbits, start, (n - 1) as nat);
        let op = init_plan(mbits)[n - 1];
        if n != 1 && n != 2 && n != 11 && n != 12 && n != 18 && n != 19 {
            assert(!moves_a_line(op));
        }
    }
}

/// The plan that sends a command moves no line.
pub proof fn lemma_commands_leave_the_lines(cmd: Seq<u8>, wait: bool)
    ensures
        forall|i: int|
            0 <= i < ctl_cmd_plan(cmd, wait).len() ==> !moves_a_line(
                #[trigger] ctl_cmd_plan(cmd, wait)[i],
            ),
{
}

/// The plans that a plan pulls in when it is performed move no line: not
/// the heartbeat, not the addressing of the chips, not the loading of
/// their PLLs.
pub proof fn lemma_pulled_in_plans_leave_the_lines(last: Option<u128>, now: u128, chips: nat)
    ensures
        forall|i: int|
            0 <= i < heartbeat::plan(last, now).len() ==> !moves_a_line(
                #[trigger] heartbeat::plan(last, now)[i],
            ),
        forall|i: int|
            0 <= i < assign_chip_addresses_plan(chips).len() ==> !moves_a_line(
                #[trigger] assign_chip_addresses_plan(chips)[i],
            ),
        forall|i: int|
            0 <= i < set_pll_plan(chips).len() ==> !moves_a_line(#[trigger] set_pll_plan(chips)[i]),
    decreases chips,
{
    if chips > 0 {
        lemma_pulled_in_plans_leave_the_lines(last, now, (chips - 1) as nat);
        let addr = super::chip_address(chips - 1);
        lemma_commands_leave_the_lines((SetChipAddressCmd { chip_address: addr }).spec_pack(), false);
        lemma_commands_leave_the_lines(
            (SetConfigCmd {
                chip_address: addr,
                to_all: false,
                register: super::bm1387::PLL_PARAM_REG,
                value: super::PLL_PARAM,
            }).spec_pack(),
            false,
        );
        assert(assign_chip_addresses_plan(chips) == assign_chip_addresses_plan((chips - 1) as nat)
            + set_chip_address_plan(addr));
        assert(set_pll_plan(chips) == set_pll_plan((chips - 1) as nat) + set_chip_pll_plan(addr));
    }
}

} // verus!
