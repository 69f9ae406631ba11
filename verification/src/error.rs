//! The error kinds that the controller reports.

use vstd::prelude::*;

verus! {

/// The two receive FIFOs of the IP core.
#[derive(Clone, Copy, Debug, PartialEq, Eq, Structural)]
pub enum Fifo {
    /// Mining work results.
    WorkRx,
    /// Responses to chip commands.
    CmdRx,
}

/// What went wrong in an exchange with the voltage controller.
#[derive(Clone, Copy, Debug, PartialEq, Eq, Structural)]
pub enum VoltageFault {
    /// The firmware reported a version other than the expected one.
    Version,
    /// The bus transfer failed.
    Io,
    /// The controller did not answer in time.
    Timeout,
}

/// Flat enumeration of the failures of the hash-board controller.
#[derive(Clone, Copy, Debug, PartialEq, Eq, Structural)]
pub enum Error {
    /// The plug pin read low at construction: no board in the slot.
    NotPresent,
    /// A named GPIO pin could not be acquired.
    GpioFailure,
    /// The register block could not be mapped.
    MapFailure,
    /// The voltage controller failed or runs unexpected firmware.
    VoltageCtrlFailure(VoltageFault),
    /// A chip answered the enumeration with a foreign revision.
    ChipRevMismatch { expected: u16, got: u16, index: usize },
    /// The enumeration found no chip.
    NoChips,
    /// The enumeration found more chips than the address space holds.
    TooManyChips,
    /// A receive FIFO stayed empty.
    Timeout(Fifo),
    /// A frame could not be unpacked.
    FrameDecode,
    /// The wall clock went backwards between two heartbeat ticks.
    SystemTime,
    /// A mining work carries another number of midstates than the
    /// controller was configured for.
    MidstateCountMismatch { configured: usize, submitted: usize },
}

} // verus!
