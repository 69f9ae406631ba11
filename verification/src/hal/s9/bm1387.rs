//! Frames of the BM1387 chip protocol.
//!
//! A command starts with a three byte header:
//!
//! ```text
//! byte 0   bits 7:5  command type (control command)
//!          bit  4    set when the command addresses every chip
//!          bits 3:0  command code
//! byte 1   frame length, the trailing checksum byte counted in
//! byte 2   chip address
//! ```
//!
//! The checksum byte itself is appended by the IP core, so a packed command
//! is one byte shorter than its length field says, and always a whole number
//! of 32-bit FIFO words. A response arrives without its checksum as six
//! bytes.

use super::endian::{le_bytes, le_value, lemma_le_bytes_of_value, lemma_le_value_of_bytes};
use crate::error::Error;
use vstd::prelude::*;

verus! {

/// Register that holds a chip's revision and address.
pub const GET_ADDRESS_REG: u8 = 0x00;

/// Register that holds the PLL parameters.
pub const PLL_PARAM_REG: u8 = 0x0c;

/// Miscellaneous control register.
pub const MISC_CONTROL_REG: u8 = 0x1c;

/// Revision that a BM1387 reports of itself.
pub const CHIP_REV_BM1387: u16 = 0x1387;

/// Command type of a control command.
pub const VIL_CTL_CMD: u8 = 0x02;

/// Command code: assign a chip its address.
pub const CMD_SET_CHIP_ADDRESS: u8 = 0x01;

/// Command code: read a register.
pub const CMD_GET_STATUS: u8 = 0x04;

/// Command code: put the chips back into the state before addressing.
pub const CMD_INACTIVATE_FROM_CHAIN: u8 = 0x05;

/// Command code: write a register.
pub const CMD_SET_CONFIG: u8 = 0x08;

/// Length field of a command with a one byte payload.
pub const SHORT_CMD_LENGTH: u8 = 5;

/// Length field of a register write.
pub const SET_CONFIG_LENGTH: u8 = 9;

/// Number of bytes of a response once pad byte and checksum are dropped.
pub const RESPONSE_BYTES: usize = 6;

/// Width of the baud rate divisor field of the miscellaneous control
/// register.
pub const BAUD_DIV_LIMIT: u8 = 64;

/// First header byte of a control command.
pub open spec fn cmd_byte(code: u8, to_all: bool) -> int {
    VIL_CTL_CMD * 32 + (if to_all {
        16int
    } else {
        0int
    }) + code
}

/// The three header bytes of a control command.
pub open spec fn header(code: u8, to_all: bool, length: u8, chip_address: u8) -> Seq<u8> {
    seq![cmd_byte(code, to_all) as u8, length, chip_address]
}

/// Whether `src` starts with the header of a command with the given code
/// and length.
pub open spec fn has_header(src: Seq<u8>, code: u8, length: u8) -> bool {
    &&& src.len() + 1 == length
    &&& src[0] / 32 == VIL_CTL_CMD
    &&& src[0] % 16 == code
    &&& src[1] == length
}

/// The broadcast bit of a command's first byte.
pub open spec fn header_to_all(src: Seq<u8>) -> bool {
    (src[0] / 16) % 2 == 1
}

/// A frame of the chip protocol: a value with a fixed image in bytes.
pub trait Frame: Sized {
    /// Whether the value can be sent: each field fits the bits it has in
    /// the frame.
    spec fn wf(&self) -> bool;

    /// The bytes of the frame.
    spec fn spec_pack(&self) -> Seq<u8>;

    /// The frame that `src` is the image of, if it is one.
    spec fn spec_unpack(src: Seq<u8>) -> Option<Self>;

    /// Packs the frame.
    fn pack(&self) -> (bytes: Vec<u8>)
        requires
            self.wf(),
        ensures
            bytes@ == self.spec_pack(),
    ;

    /// Unpacks a frame. Fails with `FrameDecode` on bytes that no frame of
    /// this type packs to.
    fn unpack_from_slice(src: &[u8]) -> (r: Result<Self, Error>)
        ensures
            r == match Self::spec_unpack(src@) {
                Some(frame) => Ok::<Self, Error>(frame),
                None => Err::<Self, Error>(Error::FrameDecode),
            },
    ;

    /// Unpacking what was packed gives the frame back.
    proof fn lemma_unpack_pack(&self)
        requires
            self.wf(),
        ensures
            Self::spec_unpack(self.spec_pack()) == Some(*self),
    ;

    /// Only the image of a frame unpacks, and it unpacks to a frame that
    /// can be sent.
    proof fn lemma_pack_unpack(src: Seq<u8>)
        ensures
            Self::spec_unpack(src) matches Some(frame) ==> frame.wf() && frame.spec_pack() == src,
    ;
}

/// Header byte of a control command.
fn make_cmd_byte(code: u8, to_all: bool) -> (b: u8)
    requires
        code < 16,
    ensures
        b == cmd_byte(code, to_all),
{
    let all: u8 = if to_all {
        16
    } else {
        0
    };
    VIL_CTL_CMD * 32 + all + code
}

/// Reads a register of one chip, or of all of them.
#[derive(Clone, Copy, Debug, PartialEq, Eq, Structural)]
pub struct GetStatusCmd {
    pub chip_address: u8,
    pub to_all: bool,
    pub register: u8,
}

impl GetStatusCmd {
    pub fn new(chip_address: u8, to_all: bool, register: u8) -> (cmd: Self)
        ensures
            cmd == (GetStatusCmd { chip_address, to_all, register }),
    {
        GetStatusCmd { chip_address, to_all, register }
    }
}

impl Frame for GetStatusCmd {
    open spec fn wf(&self) -> bool {
        true
    }

    open spec fn spec_pack(&self) -> Seq<u8> {
        header(CMD_GET_STATUS, self.to_all, SHORT_CMD_LENGTH, self.chip_address).push(
            self.register,
        )
    }

    open spec fn spec_unpack(src: Seq<u8>) -> Option<Self> {
        if has_header(src, CMD_GET_STATUS, SHORT_CMD_LENGTH) {
            Some(GetStatusCmd { chip_address: src[2], to_all: header_to_all(src), register: src[3] })
        } else {
            None
        }
    }

    fn pack(&self) -> (bytes: Vec<u8>) {
        let mut bytes: Vec<u8> = Vec::new();
        bytes.push(make_cmd_byte(CMD_GET_STATUS, self.to_all));
        bytes.push(SHORT_CMD_LENGTH);
        bytes.push(self.chip_address);
        bytes.push(self.register);
        assert(bytes@ =~= self.spec_pack());
        bytes
    }

    fn unpack_from_slice(src: &[u8]) -> (r: Result<Self, Error>) {
        if src.len() != 4 || src[0] / 32 != VIL_CTL_CMD || src[0] % 16 != CMD_GET_STATUS || src[1]
            != SHORT_CMD_LENGTH {
            return Err(Error::FrameDecode);
        }
        Ok(GetStatusCmd { chip_address: src[2], to_all: (src[0] / 16) % 2 == 1, register: src[3] })
    }

    proof fn lemma_unpack_pack(&self) {
    }

    proof fn lemma_pack_unpack(src: Seq<u8>) {
        if let Some(frame) = Self::spec_unpack(src) {
            assert(frame.spec_pack() =~= src);
        }
    }
}

/// Assigns an address to the first chip of the chain that has none yet.
#[derive(Clone, Copy, Debug, PartialEq, Eq, Structural)]
pub struct SetChipAddressCmd {
    pub chip_address: u8,
}

impl SetChipAddressCmd {
    /// The chain hands out addresses in steps of four.
    pub fn new(chip_address: u8) -> (cmd: Self)
        requires
            chip_address % 4 == 0,
        ensures
            cmd == (SetChipAddressCmd { chip_address }),
            cmd.wf(),
    {
        SetChipAddressCmd { chip_address }
    }
}

impl Frame for SetChipAddressCmd {
    open spec fn wf(&self) -> bool {
        self.chip_address % 4 == 0
    }

    open spec fn spec_pack(&self) -> Seq<u8> {
        header(CMD_SET_CHIP_ADDRESS, false, SHORT_CMD_LENGTH, self.chip_address).push(0u8)
    }

    open spec fn spec_unpack(src: Seq<u8>) -> Option<Self> {
        if has_header(src, CMD_SET_CHIP_ADDRESS, SHORT_CMD_LENGTH) && !header_to_all(src) && src[2]
            % 4 == 0 && src[3] == 0 {
            Some(SetChipAddressCmd { chip_address: src[2] })
        } else {
            None
        }
    }

    fn pack(&self) -> (bytes: Vec<u8>) {
        let mut bytes: Vec<u8> = Vec::new();
        bytes.push(make_cmd_byte(CMD_SET_CHIP_ADDRESS, false));
        bytes.push(SHORT_CMD_LENGTH);
        bytes.push(self.chip_address);
        bytes.push(0);
        assert(bytes@ =~= self.spec_pack());
        bytes
    }

    fn unpack_from_slice(src: &[u8]) -> (r: Result<Self, Error>) {
        if src.len() != 4 || src[0] / 32 != VIL_CTL_CMD || src[0] % 16 != CMD_SET_CHIP_ADDRESS
            || src[1] != SHORT_CMD_LENGTH {
            return Err(Error::FrameDecode);
        }
        if (src[0] / 16) % 2 == 1 || src[2] % 4 != 0 || src[3] != 0 {
            return Err(Error::FrameDecode);
        }
        Ok(SetChipAddressCmd { chip_address: src[2] })
    }

    proof fn lemma_unpack_pack(&self) {
    }

    proof fn lemma_pack_unpack(src: Seq<u8>) {
        if let Some(frame) = Self::spec_unpack(src) {
            assert(frame.spec_pack() =~= src);
        }
    }
}

/// Takes every chip off the chain, so that each accepts the next address
/// that passes and forwards the following ones.
#[derive(Clone, Copy, Debug, PartialEq, Eq, Structural)]
pub struct InactivateFromChainCmd {}

impl InactivateFromChainCmd {
    pub fn new() -> (cmd: Self) {
        InactivateFromChainCmd {  }
    }
}

impl Frame for InactivateFromChainCmd {
    open spec fn wf(&self) -> bool {
        true
    }

    open spec fn spec_pack(&self) -> Seq<u8> {
        header(CMD_INACTIVATE_FROM_CHAIN, true, SHORT_CMD_LENGTH, 0).push(0u8)
    }

    open spec fn spec_unpack(src: Seq<u8>) -> Option<Self> {
        if has_header(src, CMD_INACTIVATE_FROM_CHAIN, SHORT_CMD_LENGTH) && header_to_all(src)
            && src[2] == 0 && src[3] == 0 {
            Some(InactivateFromChainCmd {  })
        } else {
            None
        }
    }

    fn pack(&self) -> (bytes: Vec<u8>) {
        let mut bytes: Vec<u8> = Vec::new();
        bytes.push(make_cmd_byte(CMD_INACTIVATE_FROM_CHAIN, true));
        bytes.push(SHORT_CMD_LENGTH);
        bytes.push(0);
        bytes.push(0);
        assert(bytes@ =~= self.spec_pack());
        bytes
    }

    fn unpack_from_slice(src: &[u8]) -> (r: Result<Self, Error>) {
        if src.len() != 4 || src[0] / 32 != VIL_CTL_CMD || src[0] % 16
            != CMD_INACTIVATE_FROM_CHAIN || src[1] != SHORT_CMD_LENGTH {
            return Err(Error::FrameDecode);
        }
        if (src[0] / 16) % 2 != 1 || src[2] != 0 || src[3] != 0 {
            return Err(Error::FrameDecode);
        }
        Ok(InactivateFromChainCmd {  })
    }

    proof fn lemma_unpack_pack(&self) {
    }

    proof fn lemma_pack_unpack(src: Seq<u8>) {
        if let Some(frame) = Self::spec_unpack(src) {
            assert(frame.spec_pack() =~= src);
        }
    }
}

/// Writes a register of one chip, or of all of them. The value travels
/// least significant byte first.
#[derive(Clone, Copy, Debug, PartialEq, Eq, Structural)]
pub struct SetConfigCmd {
    pub chip_address: u8,
    pub to_all: bool,
    pub register: u8,
    pub value: u32,
}

impl SetConfigCmd {
    pub fn new(chip_address: u8, to_all: bool, register: u8, value: u32) -> (cmd: Self)
        ensures
            cmd == (SetConfigCmd { chip_address, to_all, register, value }),
    {
        SetConfigCmd { chip_address, to_all, register, value }
    }
}

impl Frame for SetConfigCmd {
    open spec fn wf(&self) -> bool {
        true
    }

    open spec fn spec_pack(&self) -> Seq<u8> {
        header(CMD_SET_CONFIG, self.to_all, SET_CONFIG_LENGTH, self.chip_address).push(
            self.register,
        ) + le_bytes(self.value)
    }

    open spec fn spec_unpack(src: Seq<u8>) -> Option<Self> {
        if has_header(src, CMD_SET_CONFIG, SET_CONFIG_LENGTH) {
            Some(
                SetConfigCmd {
                    chip_address: src[2],
                    to_all: header_to_all(src),
                    register: src[3],
                    value: le_value(src.subrange(4, 8)),
                },
            )
        } else {
            None
        }
    }

    fn pack(&self) -> (bytes: Vec<u8>) {
        let value: u32 = self.value;
        let mut bytes: Vec<u8> = Vec::new();
        bytes.push(make_cmd_byte(CMD_SET_CONFIG, self.to_all));
        bytes.push(SET_CONFIG_LENGTH);
        bytes.push(self.chip_address);
        bytes.push(self.register);
        bytes.push((value % 256) as u8);
        bytes.push(((value / 0x100) % 256) as u8);
        bytes.push(((value / 0x1_0000) % 256) as u8);
        bytes.push((value / 0x100_0000) as u8);
        assert(bytes@ =~= self.spec_pack());
        bytes
    }

    fn unpack_from_slice(src: &[u8]) -> (r: Result<Self, Error>) {
        if src.len() != 8 || src[0] / 32 != VIL_CTL_CMD || src[0] % 16 != CMD_SET_CONFIG || src[1]
            != SET_CONFIG_LENGTH {
            return Err(Error::FrameDecode);
        }
        let b0: u32 = src[4] as u32;
        let b1: u32 = src[5] as u32;
        let b2: u32 = src[6] as u32;
        let b3: u32 = src[7] as u32;
        let value: u32 = b0 + b1 * 0x100 + b2 * 0x1_0000 + b3 * 0x100_0000;
        Ok(
            SetConfigCmd {
                chip_address: src[2],
                to_all: (src[0] / 16) % 2 == 1,
                register: src[3],
                value,
            },
        )
    }

    proof fn lemma_unpack_pack(&self) {
        let src = self.spec_pack();
        assert(src.subrange(4, 8) =~= le_bytes(self.value));
        lemma_le_value_of_bytes(self.value);
    }

    proof fn lemma_pack_unpack(src: Seq<u8>) {
        if let Some(frame) = Self::spec_unpack(src) {
            lemma_le_bytes_of_value(src.subrange(4, 8));
            assert(frame.spec_pack() =~= src);
        }
    }
}

/// Every command fills whole words of the command FIFO: one word, or two
/// for a register write.
pub proof fn lemma_commands_fill_words(
    get_status: GetStatusCmd,
    set_chip_address: SetChipAddressCmd,
    inactivate_from_chain: InactivateFromChainCmd,
    set_config: SetConfigCmd,
)
    ensures
        get_status.spec_pack().len() == 4,
        set_chip_address.spec_pack().len() == 4,
        inactivate_from_chain.spec_pack().len() == 4,
        set_config.spec_pack().len() == 8,
{
}

/// Content of the address register, as a chip reports it during the
/// enumeration.
#[derive(Clone, Copy, Debug, PartialEq, Eq, Structural)]
pub struct GetAddressReg {
    /// Revision of the chip, most significant byte first in the frame.
    pub chip_rev: u16,
    pub reserved1: u8,
    /// Address that the chip holds.
    pub addr: u8,
    pub reserved2: u8,
    pub reserved3: u8,
}

impl Frame for GetAddressReg {
    open spec fn wf(&self) -> bool {
        true
    }

    open spec fn spec_pack(&self) -> Seq<u8> {
        seq![
            (self.chip_rev / 256) as u8,
            (self.chip_rev % 256) as u8,
            self.reserved1,
            self.addr,
            self.reserved2,
            self.reserved3,
        ]
    }

    open spec fn spec_unpack(src: Seq<u8>) -> Option<Self> {
        if src.len() == RESPONSE_BYTES {
            Some(
                GetAddressReg {
                    chip_rev: (src[0] * 256 + src[1]) as u16,
                    reserved1: src[2],
                    addr: src[3],
                    reserved2: src[4],
                    reserved3: src[5],
                },
            )
        } else {
            None
        }
    }

    fn pack(&self) -> (bytes: Vec<u8>) {
        let mut bytes: Vec<u8> = Vec::new();
        bytes.push((self.chip_rev / 256) as u8);
        bytes.push((self.chip_rev % 256) as u8);
        bytes.push(self.reserved1);
        bytes.push(self.addr);
        bytes.push(self.reserved2);
        bytes.push(self.reserved3);
        assert(bytes@ =~= self.spec_pack());
        bytes
    }

    fn unpack_from_slice(src: &[u8]) -> (r: Result<Self, Error>) {
        if src.len() != RESPONSE_BYTES {
            return Err(Error::FrameDecode);
        }
        let hi: u16 = src[0] as u16;
        let lo: u16 = src[1] as u16;
        Ok(
            GetAddressReg {
                chip_rev: hi * 256 + lo,
                reserved1: src[2],
                addr: src[3],
                reserved2: src[4],
                reserved3: src[5],
            },
        )
    }

    proof fn lemma_unpack_pack(&self) {
    }

    proof fn lemma_pack_unpack(src: Seq<u8>) {
        if let Some(frame) = Self::spec_unpack(src) {
            assert(frame.spec_pack() =~= src);
        }
    }
}

/// Content of the miscellaneous control register.
///
/// ```text
/// bit  6       not_set_baud
/// bit  13      inv_clock
/// bits 21:16   baud_div
/// bit  23      gate_block
/// bit  31      mmen
/// ```
#[derive(Clone, Copy, Debug, PartialEq, Eq, Structural)]
pub struct MiscCtrlReg {
    /// Clear while the baud rate is being set, set when the chain is
    /// configured.
    pub not_set_baud: bool,
    /// Inverts the clock pin.
    pub inv_clock: bool,
    /// Baud rate divisor.
    pub baud_div: u8,
    /// Makes every block of a chip ignore work until a work enables it.
    pub gate_block: bool,
    /// Enables work with several midstates.
    pub mmen: bool,
}

/// What a flag adds to a register value: the weight of its bit when set.
pub open spec fn flag(on: bool, weight: int) -> int {
    if on {
        weight
    } else {
        0
    }
}

impl MiscCtrlReg {
    /// Whether the divisor fits its field.
    pub open spec fn wf(&self) -> bool {
        self.baud_div < BAUD_DIV_LIMIT
    }

    /// The register value that holds the fields.
    pub open spec fn spec_to_reg(&self) -> u32 {
        (flag(self.not_set_baud, 0x40) + flag(self.inv_clock, 0x2000) + self.baud_div * 0x1_0000
            + flag(self.gate_block, 0x80_0000) + flag(self.mmen, 0x8000_0000)) as u32
    }

    /// The fields that a register value holds.
    pub open spec fn spec_from_reg(reg: u32) -> Self {
        MiscCtrlReg {
            not_set_baud: (reg / 0x40) % 2 == 1,
            inv_clock: (reg / 0x2000) % 2 == 1,
            baud_div: ((reg / 0x1_0000) % 64) as u8,
            gate_block: (reg / 0x80_0000) % 2 == 1,
            mmen: (reg / 0x8000_0000) % 2 == 1,
        }
    }

    /// Packs the fields into the register value.
    pub fn to_reg(&self) -> (reg: u32)
        requires
            self.wf(),
        ensures
            reg == self.spec_to_reg(),
    {
        let mut reg: u32 = (self.baud_div as u32) * 0x1_0000;
        if self.not_set_baud {
            reg = reg + 0x40;
        }
        if self.inv_clock {
            reg = reg + 0x2000;
        }
        if self.gate_block {
            reg = reg + 0x80_0000;
        }
        if self.mmen {
            reg = reg + 0x8000_0000;
        }
        reg
    }

    /// Reads the fields out of a register value. Bits that belong to no
    /// field are ignored.
    pub fn from_reg(reg: u32) -> (fields: Self)
        ensures
            fields == Self::spec_from_reg(reg),
            fields.wf(),
    {
        MiscCtrlReg {
            not_set_baud: (reg / 0x40) % 2 == 1,
            inv_clock: (reg / 0x2000) % 2 == 1,
            baud_div: ((reg / 0x1_0000) % 64) as u8,
            gate_block: (reg / 0x80_0000) % 2 == 1,
            mmen: (reg / 0x8000_0000) % 2 == 1,
        }
    }

    /// Reading a register value that was packed gives the fields back.
    pub proof fn lemma_from_reg_to_reg(&self)
        requires
            self.wf(),
        ensures
            Self::spec_from_reg(self.spec_to_reg()) == *self,
    {
    }
}

} // verus!
