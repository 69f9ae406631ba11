//! The hardware operations that the controller asks for.
//!
//! A procedure of the controller returns a plan: operations to perform in
//! the given order. The first one that fails ends the plan with its error.

use vstd::prelude::*;

verus! {

/// Level of a GPIO line.
#[derive(Clone, Copy, Debug, PartialEq, Eq, Structural)]
pub enum PinLevel {
    Low,
    High,
}

/// Number of midstates that each mining work carries.
#[derive(Clone, Copy, Debug, PartialEq, Eq, Structural)]
pub enum MidstateCount {
    One,
    Two,
    Four,
}

impl MidstateCount {
    /// The value of the midstate count field of the control register.
    pub open spec fn spec_bits(self) -> u8 {
        match self {
            MidstateCount::One => 0,
            MidstateCount::Two => 1,
            MidstateCount::Four => 2,
        }
    }

    /// The value of the midstate count field of the control register.
    pub fn bits(self) -> (bits: u8)
        ensures
            bits == self.spec_bits(),
            bits <= 2,
    {
        match self {
            MidstateCount::One => 0,
            MidstateCount::Two => 1,
            MidstateCount::Four => 2,
        }
    }
}

/// A request to the voltage controller that returns no data.
#[derive(Clone, Copy, Debug, PartialEq, Eq, Structural)]
pub enum VoltageCmd {
    Reset,
    JumpFromLoaderToApp,
    SetVoltage(u8),
    EnableVoltage,
    DisableVoltage,
    SendHeartBeat,
}

/// One step of a plan.
#[derive(Clone, Copy, Debug, PartialEq, Eq, Structural)]
pub enum Op {
    /// Set or clear the enable bit of the control register; its other
    /// fields keep their values.
    EnableIpCore(bool),
    /// Write the baud rate divisor register.
    WriteBaudReg(u32),
    /// Write the work time register.
    WriteWorkTime(u32),
    /// Write the midstate count field of the control register; its other
    /// fields keep their values.
    WriteMidstateCount(u8),
    /// Wait while the work TX FIFO is full, then write the word to it.
    WriteWorkTx(u32),
    /// Wait while the command TX FIFO is full, then write the word to it.
    WriteCmdTx(u32),
    /// Wait until the command TX FIFO is empty.
    DrainCmdTx,
    /// Drive the reset line of the board.
    SetRstPin(PinLevel),
    /// Send a request to the voltage controller.
    Voltage(VoltageCmd),
    /// Pause for the given number of milliseconds.
    Sleep(u64),
    /// Read the firmware version of the voltage controller and hand it to
    /// `HChainCtl::check_voltage_ctrl_version`.
    CheckVoltageCtrlVersion,
    /// Read the clock and perform the plan of
    /// `HChainCtl::send_voltage_ctrl_heart_beat`.
    HeartBeatTick,
    /// Start the count of chips anew with `HChainCtl::forget_chips`. Then
    /// receive command responses, as `fifo::first_word` and
    /// `HChainCtl::recv_ctl_cmd_resp` build them, and hand each to
    /// `HChainCtl::chip_detected`, until none arrives. What this comes to
    /// for the answers that arrive is `enumeration::received`.
    ReceiveChips,
    /// Ask `HChainCtl::check_chip_count`. Together with the receipt of the
    /// chips this comes to `enumeration::enumerated`.
    CheckChipCount,
    /// Perform the plan of `HChainCtl::assign_chip_addresses`.
    AssignChipAddresses,
    /// Perform the plan of `HChainCtl::set_pll`.
    SetPll,
    /// Read the work RX FIFO: hand what the first read gave to
    /// `fifo::first_word` and, when that asks for the second word, what the
    /// second read gave to `HChainCtl::work_result`.
    ReceiveWorkResult,
}

} // verus!
