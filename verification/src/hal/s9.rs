//! Controller of one S9 hash board: a chain of BM1387 chips behind the
//! FPGA mining IP core, powered through a voltage controller.
//!
//! The controller decides and keeps the books; it touches no hardware.
//! Each procedure returns a plan (see [`op`]), and what was read from the
//! hardware is handed to the function that judges it.

use vstd::prelude::*;

pub mod bm1387;
pub mod endian;
pub mod enumeration;
pub mod fifo;
pub mod heartbeat;
pub mod lines;
pub mod op;
pub mod result_id;

use crate::error::{Error, VoltageFault};
use crate::hal::{MiningWork, MiningWorkResult};
use bm1387::{
    Frame, GetAddressReg, GetStatusCmd, InactivateFromChainCmd, MiscCtrlReg, SetChipAddressCmd,
    SetConfigCmd,
};
use op::{MidstateCount, Op, PinLevel, VoltageCmd};

verus! {

/// Pause after each request to leave the chain, in milliseconds.
pub const INACTIVATE_FROM_CHAIN_DELAY_MS: u64 = 100;

/// Base delay quantum during the initialization of the board, in
/// milliseconds.
pub const INIT_DELAY_MS: u64 = 1000;

/// Pause while the board powers up again, in milliseconds.
pub const POWER_UP_DELAY_MS: u64 = 2000;

/// The address field has 8 bits and the chain hands out addresses in steps
/// of four, so a chain holds fewer chips than this.
pub const MAX_CHIPS_ON_CHAIN: usize = 64;

/// Distance between the addresses of two neighbours on the chain.
pub const CHIP_ADDRESS_STEP: usize = 4;

/// Number of requests to leave the chain that precede the addressing.
pub const INACTIVATE_FROM_CHAIN_REPEATS: usize = 3;

/// Baud rate divisor for 115200 baud.
pub const BAUD_REG_115200: u32 = 0x1b;

/// Value of the work time register at bring-up.
pub const WORK_TIME: u32 = 50000;

/// Starting value of the PLL parameter register.
pub const PLL_PARAM: u32 = 0x2102_6800;

/// Firmware version of the voltage controller that the driver works with.
pub const EXPECTED_VOLTAGE_CTRL_VERSION: u8 = 3;

/// Voltage setting at bring-up.
pub const INIT_VOLTAGE: u8 = 6;

/// Baud rate divisor of the chips for 115200 baud.
pub const CHIP_BAUD_DIV: u8 = 26;

/// Hash chain controller: the books of the driver of one hash board.
pub struct HChainCtl {
    /// ID of the next work; once it rolls over, old works can be retired.
    work_id: u16,
    /// Number of chips that the enumeration has found.
    chip_count: usize,
    /// Number of midstates per work.
    midstate_count: MidstateCount,
    /// When the heartbeat ticker last noted the time.
    last_heartbeat_sent: Option<u128>,
}

/// What a controller holds.
pub struct ChainState {
    pub work_id: u16,
    pub chip_count: usize,
    pub midstate_count: MidstateCount,
    pub last_heartbeat_sent: Option<u128>,
}

impl ChainState {
    /// The midstate count as the bits of the result ID that hold the
    /// midstate index: 0, 1 or 2.
    pub open spec fn midstate_count_bits(self) -> u8 {
        self.midstate_count.spec_bits()
    }
}

impl View for HChainCtl {
    type V = ChainState;

    closed spec fn view(&self) -> ChainState {
        ChainState {
            work_id: self.work_id,
            chip_count: self.chip_count,
            midstate_count: self.midstate_count,
            last_heartbeat_sent: self.last_heartbeat_sent,
        }
    }
}

/// Number of midstates of a work when the index of one takes `mbits` bits.
pub open spec fn midstates_per_work(mbits: u8) -> usize {
    1usize << mbits
}

/// The work ID that follows `work_id`: one further for each midstate,
/// modulo 2^16.
pub open spec fn next_work_id(work_id: u16, mbits: u8) -> u16 {
    ((work_id + (1u16 << mbits)) % 0x1_0000) as u16
}

/// The work ID that `k` submissions after `start` arrive at.
pub open spec fn work_id_after(start: u16, mbits: u8, k: nat) -> u16
    decreases k,
{
    if k == 0 {
        start
    } else {
        next_work_id(work_id_after(start, mbits, (k - 1) as nat), mbits)
    }
}

/// The values of `1 << mbits` for the midstate counts there are.
pub proof fn lemma_midstates_per_work(mbits: u8)
    requires
        mbits <= 2,
    ensures
        (1u16 << mbits) == (1usize << mbits),
        (1u32 << mbits) == (1usize << mbits),
        mbits == 0 ==> (1usize << mbits) == 1,
        mbits == 1 ==> (1usize << mbits) == 2,
        mbits == 2 ==> (1usize << mbits) == 4,
{
    assert(mbits <= 2 ==> (1u16 << mbits) == (1usize << mbits) && (1u32 << mbits) == (1usize
        << mbits)) by (bit_vector);
    assert((1usize << 0u8) == 1 && (1usize << 1u8) == 2 && (1usize << 2u8) == 4) by (bit_vector);
}

/// The IDs of consecutive submissions form an arithmetic progression with
/// step `1 << mbits`, modulo 2^16.
pub proof fn lemma_work_ids_progress(start: u16, mbits: u8, k: nat)
    requires
        mbits <= 2,
    ensures
        work_id_after(start, mbits, k) == (start + k * (1u16 << mbits)) % 0x1_0000,
    decreases k,
{
    lemma_midstates_per_work(mbits);
    let step: int = (1u16 << mbits) as int;
    if k > 0 {
        lemma_work_ids_progress(start, mbits, (k - 1) as nat);
        let before: int = start + (k - 1) * step;
        assert(start + k * step == before + step) by (nonlinear_arith)
            requires
                before == start + (k - 1) * step,
        ;
        assert((before % 0x1_0000 + step) % 0x1_0000 == (before + step) % 0x1_0000);
    } else {
        assert(k * step == 0) by (nonlinear_arith)
            requires
                k == 0,
        ;
    }
}

/// No two submissions within one wrap period of the work ID, which is
/// `2^16 / (1 << mbits)` submissions long, share an ID.
pub proof fn lemma_work_ids_differ_within_window(start: u16, mbits: u8, i: nat, j: nat)
    requires
        mbits <= 2,
        i < j,
        j - i < 0x1_0000int / ((1u16 << mbits) as int),
    ensures
        work_id_after(start, mbits, i) != work_id_after(start, mbits, j),
{
    lemma_midstates_per_work(mbits);
    lemma_work_ids_progress(start, mbits, i);
    lemma_work_ids_progress(start, mbits, j);
    let step: int = (1u16 << mbits) as int;
    let a: int = start + i * step;
    let d: int = (j - i) * step;
    assert(0 < d < 0x1_0000) by (nonlinear_arith)
        requires
            d == (j - i) * step,
            0 < j - i,
            1 <= step <= 4,
            j - i < 0x1_0000int / step,
    ;
    assert(start + j * step == a + d) by (nonlinear_arith)
        requires
            a == start + i * step,
            d == (j - i) * step,
    ;
    assert(a % 0x1_0000 != (a + d) % 0x1_0000);
}

/// Address of chip `k` of the chain.
pub open spec fn chip_address(k: int) -> u8 {
    (CHIP_ADDRESS_STEP * k) as u8
}

/// The plan that brings the IP core into its working state.
pub open spec fn ip_core_init_plan(mbits: u8) -> Seq<Op> {
    seq![
        Op::EnableIpCore(false),
        Op::EnableIpCore(true),
        Op::WriteBaudReg(BAUD_REG_115200),
        Op::WriteWorkTime(WORK_TIME),
        Op::WriteMidstateCount(mbits),
    ]
}

/// The plan that puts the board into reset: the IP core is off before the
/// reset line goes low.
pub open spec fn enter_reset_plan() -> Seq<Op> {
    seq![Op::EnableIpCore(false), Op::SetRstPin(PinLevel::Low)]
}

/// The plan that takes the board out of reset: the reset line is high
/// before the IP core is on again.
pub open spec fn exit_reset_plan() -> Seq<Op> {
    seq![Op::SetRstPin(PinLevel::High), Op::EnableIpCore(true)]
}

/// The request that every chip report its address register.
pub open spec fn get_address_cmd() -> GetStatusCmd {
    GetStatusCmd { chip_address: 0, to_all: true, register: bm1387::GET_ADDRESS_REG }
}

/// The plan that sends one request to leave the chain and waits for the
/// chips to take it in.
pub open spec fn inactivate_plan() -> Seq<Op> {
    fifo::ctl_cmd_plan((InactivateFromChainCmd {  }).spec_pack(), false).push(
        Op::Sleep(INACTIVATE_FROM_CHAIN_DELAY_MS),
    )
}

/// The plan that performs `plan` `n` times over.
pub open spec fn repeated(plan: Seq<Op>, n: nat) -> Seq<Op>
    decreases n,
{
    if n == 0 {
        Seq::empty()
    } else {
        repeated(plan, (n - 1) as nat) + plan
    }
}

/// The plan that finds the chips and gives each its address.
pub open spec fn enumerate_chips_plan() -> Seq<Op> {
    fifo::ctl_cmd_plan(get_address_cmd().spec_pack(), false) + seq![
        Op::ReceiveChips,
        Op::HeartBeatTick,
        Op::CheckChipCount,
    ] + repeated(inactivate_plan(), INACTIVATE_FROM_CHAIN_REPEATS as nat) + seq![
        Op::HeartBeatTick,
        Op::AssignChipAddresses,
        Op::HeartBeatTick,
    ]
}

/// The plan that assigns the address `addr` to the next chip.
pub open spec fn set_chip_address_plan(addr: u8) -> Seq<Op> {
    fifo::ctl_cmd_plan((SetChipAddressCmd { chip_address: addr }).spec_pack(), false)
}

/// The plan that loads the PLL register of the chip at `addr` with its
/// starting value.
pub open spec fn set_chip_pll_plan(addr: u8) -> Seq<Op> {
    fifo::ctl_cmd_plan(
        (SetConfigCmd {
            chip_address: addr,
            to_all: false,
            register: bm1387::PLL_PARAM_REG,
            value: PLL_PARAM,
        }).spec_pack(),
        false,
    )
}

/// The plans of the first `n` chips of the chain, in the order of their
/// addresses.
pub open spec fn chain_plan(n: nat, per_chip: spec_fn(u8) -> Seq<Op>) -> Seq<Op>
    decreases n,
{
    if n == 0 {
        Seq::empty()
    } else {
        chain_plan((n - 1) as nat, per_chip) + per_chip(chip_address(n - 1))
    }
}

/// The plan that gives each of `chips` chips its address.
pub open spec fn assign_chip_addresses_plan(chips: nat) -> Seq<Op> {
    chain_plan(chips, |addr: u8| set_chip_address_plan(addr))
}

/// The plan that loads the PLL register of each of `chips` chips.
pub open spec fn set_pll_plan(chips: nat) -> Seq<Op> {
    chain_plan(chips, |addr: u8| set_chip_pll_plan(addr))
}

/// The miscellaneous control register of a chain that hashes.
pub open spec fn hash_chain_misc_ctrl() -> MiscCtrlReg {
    MiscCtrlReg {
        not_set_baud: true,
        inv_clock: true,
        baud_div: CHIP_BAUD_DIV,
        gate_block: true,
        mmen: true,
    }
}

/// The plan that enables hashing on every chip, and returns once the
/// command has left the FIFO.
pub open spec fn configure_hash_chain_plan() -> Seq<Op> {
    fifo::ctl_cmd_plan(
        (SetConfigCmd {
            chip_address: 0,
            to_all: true,
            register: bm1387::MISC_CONTROL_REG,
            value: hash_chain_misc_ctrl().spec_to_reg(),
        }).spec_pack(),
        true,
    )
}

/// The plan that brings up the board.
pub open spec fn init_plan(mbits: u8) -> Seq<Op> {
    ip_core_init_plan(mbits) + seq![
        Op::Voltage(VoltageCmd::Reset),
        Op::Voltage(VoltageCmd::JumpFromLoaderToApp),
        Op::CheckVoltageCtrlVersion,
        Op::Voltage(VoltageCmd::SetVoltage(INIT_VOLTAGE)),
        Op::Voltage(VoltageCmd::EnableVoltage),
    ] + enter_reset_plan() + seq![
        Op::Voltage(VoltageCmd::DisableVoltage),
        Op::Sleep(INIT_DELAY_MS),
        Op::Voltage(VoltageCmd::EnableVoltage),
        Op::Sleep(POWER_UP_DELAY_MS),
        Op::HeartBeatTick,
    ] + exit_reset_plan() + seq![Op::Sleep(INIT_DELAY_MS)] + enumerate_chips_plan() + seq![
        Op::SetPll,
    ] + configure_hash_chain_plan()
}

/// The plan that looks for a work result: a heartbeat tick, then the
/// reads.
pub open spec fn recv_work_result_plan() -> Seq<Op> {
    seq![Op::HeartBeatTick, Op::ReceiveWorkResult]
}

/// Appends the plan `tail` to `plan`.
fn extend(plan: &mut Vec<Op>, tail: Vec<Op>)
    ensures
        final(plan)@ == old(plan)@ + tail@,
{
    let mut tail = tail;
    plan.append(&mut tail);
}

impl HChainCtl {
    /// Creates the controller of the board in one slot.
    ///
    /// * `plug_pin` - level of the pin that tells whether a board is plugged in
    /// * `midstate_count` - number of midstates that each work will carry
    ///
    /// Fails with `NotPresent` when the plug pin reads low.
    pub fn new(plug_pin: PinLevel, midstate_count: MidstateCount) -> (r: Result<Self, Error>)
        ensures
            r matches Ok(ctl) ==> plug_pin == PinLevel::High && ctl@ == (ChainState {
                work_id: 0,
                chip_count: 0,
                midstate_count,
                last_heartbeat_sent: None,
            }),
            r matches Err(e) ==> plug_pin == PinLevel::Low && e == Error::NotPresent,
    {
        match plug_pin {
            PinLevel::Low => Err(Error::NotPresent),
            PinLevel::High => Ok(
                HChainCtl { work_id: 0, chip_count: 0, midstate_count, last_heartbeat_sent: None },
            ),
        }
    }

    /// The midstate count as the number of bits that a midstate index takes.
    pub fn midstate_count_bits(&self) -> (bits: u8)
        ensures
            bits == self@.midstate_count_bits(),
            bits <= 2,
    {
        self.midstate_count.bits()
    }

    /// Plan that switches the IP core on.
    pub fn enable_ip_core() -> (op: Op)
        ensures
            op == Op::EnableIpCore(true),
    {
        Op::EnableIpCore(true)
    }

    /// Plan that switches the IP core off.
    pub fn disable_ip_core() -> (op: Op)
        ensures
            op == Op::EnableIpCore(false),
    {
        Op::EnableIpCore(false)
    }

    /// Plan that sets the work time register.
    pub fn set_work_time(work_time: u32) -> (op: Op)
        ensures
            op == Op::WriteWorkTime(work_time),
    {
        Op::WriteWorkTime(work_time)
    }

    /// Plan that sets the baud rate of the chain. Only 115200 baud is
    /// implemented: the divisor written is that one's, whatever `_baud` is.
    pub fn set_baud(_baud: u32) -> (op: Op)
        ensures
            op == Op::WriteBaudReg(BAUD_REG_115200),
    {
        Op::WriteBaudReg(BAUD_REG_115200)
    }

    /// Plan that tells the IP core how many midstates a work carries.
    pub fn set_midstate_count(&self) -> (op: Op)
        ensures
            op == Op::WriteMidstateCount(self@.midstate_count_bits()),
    {
        Op::WriteMidstateCount(self.midstate_count.bits())
    }

    /// Plan that initializes the IP core. Making the plan cannot fail.
    pub fn ip_core_init(&self) -> (r: Result<Vec<Op>, Error>)
        ensures
            r matches Ok(plan) && plan@ == ip_core_init_plan(self@.midstate_count_bits()),
    {
        let mut plan: Vec<Op> = Vec::new();
        plan.push(Self::disable_ip_core());
        plan.push(Self::enable_ip_core());
        plan.push(Self::set_baud(115200));
        plan.push(Self::set_work_time(WORK_TIME));
        plan.push(self.set_midstate_count());
        assert(plan@ =~= ip_core_init_plan(self@.midstate_count_bits()));
        Ok(plan)
    }

    /// Plan that puts the board into reset and disables its IP core.
    pub fn enter_reset() -> (plan: Vec<Op>)
        ensures
            plan@ == enter_reset_plan(),
    {
        let mut plan: Vec<Op> = Vec::new();
        plan.push(Self::disable_ip_core());
        plan.push(Op::SetRstPin(PinLevel::Low));
        assert(plan@ =~= enter_reset_plan());
        plan
    }

    /// Plan that leaves reset.
    pub fn exit_reset() -> (plan: Vec<Op>)
        ensures
            plan@ == exit_reset_plan(),
    {
        let mut plan: Vec<Op> = Vec::new();
        plan.push(Op::SetRstPin(PinLevel::High));
        plan.push(Self::enable_ip_core());
        assert(plan@ =~= exit_reset_plan());
        plan
    }

    /// One tick of the heartbeat ticker at the time `now`, in nanoseconds
    /// of the wall clock. The plan holds a heartbeat if a second or more
    /// has passed since the time noted. The first tick only notes the time.
    ///
    /// Fails with `SystemTime`, and notes nothing, when the clock reads
    /// earlier than the time noted.
    pub fn send_voltage_ctrl_heart_beat(&mut self, now: u128) -> (r: Result<Vec<Op>, Error>)
        ensures
            r matches Ok(plan) ==> {
                &&& !heartbeat::clock_went_back(old(self)@.last_heartbeat_sent, now)
                &&& plan@ == heartbeat::plan(old(self)@.last_heartbeat_sent, now)
                &&& final(self)@ == (ChainState {
                    last_heartbeat_sent: heartbeat::noted(old(self)@.last_heartbeat_sent, now),
                    ..old(self)@
                })
            },
            r matches Err(e) ==> {
                &&& heartbeat::clock_went_back(old(self)@.last_heartbeat_sent, now)
                &&& e == Error::SystemTime
                &&& final(self)@ == old(self)@
            },
    {
        let mut plan: Vec<Op> = Vec::new();
        match self.last_heartbeat_sent {
            None => {
                self.last_heartbeat_sent = Some(now);
            },
            Some(t) => {
                if now < t {
                    return Err(Error::SystemTime);
                }
                if now - t >= heartbeat::HEARTBEAT_PERIOD_NS {
                    self.last_heartbeat_sent = Some(now);
                    plan.push(Op::Voltage(VoltageCmd::SendHeartBeat));
                }
            },
        }
        assert(plan@ =~= heartbeat::plan(old(self)@.last_heartbeat_sent, now));
        Ok(plan)
    }

    /// Judges the firmware version that the voltage controller reported.
    pub fn check_voltage_ctrl_version(version: u8) -> (r: Result<(), Error>)
        ensures
            r == if version == EXPECTED_VOLTAGE_CTRL_VERSION {
                Ok::<(), Error>(())
            } else {
                Err::<(), Error>(Error::VoltageCtrlFailure(VoltageFault::Version))
            },
    {
        if version != EXPECTED_VOLTAGE_CTRL_VERSION {
            return Err(Error::VoltageCtrlFailure(VoltageFault::Version));
        }
        Ok(())
    }

    /// Plan that initializes the complete hash board, the enumeration of
    /// its chips included. Making the plan changes nothing in the books:
    /// the chips of an earlier enumeration are forgotten only where the
    /// plan begins to receive the chips, so a bring-up that fails before
    /// leaves their count as it was.
    pub fn init(&mut self) -> (plan: Vec<Op>)
        ensures
            plan@ == init_plan(old(self)@.midstate_count_bits()),
            final(self)@ == old(self)@,
    {
        let mut plan: Vec<Op> = self.ip_core_init().unwrap();
        plan.push(Op::Voltage(VoltageCmd::Reset));
        plan.push(Op::Voltage(VoltageCmd::JumpFromLoaderToApp));
        plan.push(Op::CheckVoltageCtrlVersion);
        plan.push(Op::Voltage(VoltageCmd::SetVoltage(INIT_VOLTAGE)));
        plan.push(Op::Voltage(VoltageCmd::EnableVoltage));
        extend(&mut plan, Self::enter_reset());
        plan.push(Op::Voltage(VoltageCmd::DisableVoltage));
        plan.push(Op::Sleep(INIT_DELAY_MS));
        plan.push(Op::Voltage(VoltageCmd::EnableVoltage));
        plan.push(Op::Sleep(POWER_UP_DELAY_MS));
        plan.push(Op::HeartBeatTick);
        extend(&mut plan, Self::exit_reset());
        plan.push(Op::Sleep(INIT_DELAY_MS));
        extend(&mut plan, Self::enumerate_chips());
        plan.push(Op::SetPll);
        extend(&mut plan, Self::configure_hash_chain());
        assert(plan@ =~= init_plan(old(self)@.midstate_count_bits()));
        plan
    }

    /// Plan that detects the chips on the chain and assigns an address to
    /// each.
    pub fn enumerate_chips() -> (plan: Vec<Op>)
        ensures
            plan@ == enumerate_chips_plan(),
    {
        let get_addr_cmd: Vec<u8> = GetStatusCmd::new(0, true, bm1387::GET_ADDRESS_REG).pack();
        let mut plan: Vec<Op> = Self::send_ctl_cmd(get_addr_cmd.as_slice(), false);
        plan.push(Op::ReceiveChips);
        plan.push(Op::HeartBeatTick);
        plan.push(Op::CheckChipCount);
        let inactivate_from_chain_cmd: Vec<u8> = InactivateFromChainCmd::new().pack();
        let mut sent: usize = 0;
        while sent < INACTIVATE_FROM_CHAIN_REPEATS
            invariant
                sent <= INACTIVATE_FROM_CHAIN_REPEATS,
                inactivate_from_chain_cmd@ == (InactivateFromChainCmd {  }).spec_pack(),
                plan@ == fifo::ctl_cmd_plan(get_address_cmd().spec_pack(), false) + seq![
                    Op::ReceiveChips,
                    Op::HeartBeatTick,
                    Op::CheckChipCount,
                ] + repeated(inactivate_plan(), sent as nat),
            decreases INACTIVATE_FROM_CHAIN_REPEATS - sent,
        {
            let ghost before = plan@;
            extend(&mut plan, Self::send_ctl_cmd(inactivate_from_chain_cmd.as_slice(), false));
            plan.push(Op::Sleep(INACTIVATE_FROM_CHAIN_DELAY_MS));
            sent = sent + 1;
            assert(plan@ =~= before + inactivate_plan());
        }
        plan.push(Op::HeartBeatTick);
        plan.push(Op::AssignChipAddresses);
        plan.push(Op::HeartBeatTick);
        assert(plan@ =~= enumerate_chips_plan());
        plan
    }

    /// Starts the count of chips anew. This is the first step of receiving
    /// the chips.
    pub fn forget_chips(&mut self)
        ensures
            final(self)@ == enumeration::forgotten(old(self)@),
    {
        self.chip_count = 0;
    }

    /// Takes in the answer of one chip to the enumeration request.
    ///
    /// Fails with `ChipRevMismatch`, and counts nothing, when the chip is
    /// no BM1387.
    pub fn chip_detected(&mut self, addr_reg: &GetAddressReg) -> (r: Result<(), Error>)
        ensures
            (final(self)@, r) == enumeration::detected(old(self)@, *addr_reg),
    {
        if addr_reg.chip_rev != bm1387::CHIP_REV_BM1387 {
            return Err(
                Error::ChipRevMismatch {
                    expected: bm1387::CHIP_REV_BM1387,
                    got: addr_reg.chip_rev,
                    index: self.chip_count,
                },
            );
        }
        if self.chip_count < usize::MAX {
            self.chip_count = self.chip_count + 1;
        }
        Ok(())
    }

    /// Judges the number of chips once the answers have ceased: a chain
    /// holds at least one chip and fewer than `MAX_CHIPS_ON_CHAIN`.
    pub fn check_chip_count(&self) -> (r: Result<(), Error>)
        ensures
            r == enumeration::checked(self@),
            r is Ok <==> 0 < self@.chip_count < MAX_CHIPS_ON_CHAIN,
    {
        if self.chip_count >= MAX_CHIPS_ON_CHAIN {
            return Err(Error::TooManyChips);
        }
        if self.chip_count == 0 {
            return Err(Error::NoChips);
        }
        Ok(())
    }

    /// Applies `f` to the address of each detected chip, in the order of
    /// the chain, and joins the plans that it returns. Stops at the first
    /// address for which `f` fails.
    ///
    /// Fails with `NoChips` when there is no chip to iterate, and with
    /// `TooManyChips` when the chips outnumber the addresses; `f` is not
    /// called then.
    pub fn for_all_chips<F>(&self, f: F) -> (r: Result<Vec<Op>, Error>) where
        F: Fn(u8) -> Result<Vec<Op>, Error>,

        requires
            forall|k: int|
                0 <= k < self@.chip_count && k < MAX_CHIPS_ON_CHAIN ==> call_requires(
                    f,
                    (#[trigger] chip_address(k),),
                ),
        ensures
            self@.chip_count == 0 ==> r == Err::<Vec<Op>, Error>(Error::NoChips),
            self@.chip_count >= MAX_CHIPS_ON_CHAIN ==> r == Err::<Vec<Op>, Error>(
                Error::TooManyChips,
            ),
            0 < self@.chip_count < MAX_CHIPS_ON_CHAIN ==> match r {
                Ok(plan) => exists|parts: Seq<Vec<Op>>|
                    {
                        &&& parts.len() == self@.chip_count
                        &&& returned_by(f, parts)
                        &&& plan@ == joined(parts, parts.len())
                    },
                Err(e) => exists|parts: Seq<Vec<Op>>|
                    {
                        &&& parts.len() < self@.chip_count
                        &&& returned_by(f, parts)
                        &&& call_ensures(
                            f,
                            (chip_address(parts.len() as int),),
                            Err::<Vec<Op>, Error>(e),
                        )
                    },
            },
    {
        if self.chip_count == 0 {
            return Err(Error::NoChips);
        }
        if self.chip_count >= MAX_CHIPS_ON_CHAIN {
            return Err(Error::TooManyChips);
        }
        let mut plan: Vec<Op> = Vec::new();
        let ghost mut parts: Seq<Vec<Op>> = Seq::empty();
        let mut k: usize = 0;
        while k < self.chip_count
            invariant
                k <= self.chip_count < MAX_CHIPS_ON_CHAIN,
                self.chip_count == self@.chip_count,
                parts.len() == k,
                forall|j: int|
                    0 <= j < self@.chip_count ==> call_requires(f, (#[trigger] chip_address(j),)),
                returned_by(f, parts),
                plan@ == joined(parts, parts.len()),
            decreases self.chip_count - k,
        {
            let addr: u8 = (k * CHIP_ADDRESS_STEP) as u8;
            assert(addr == chip_address(k as int));
            match f(addr) {
                Ok(part) => {
                    proof {
                        let ghost before = parts;
                        parts = parts.push(part);
                        lemma_joined_prefix(before, parts, before.len());
                    }
                    extend(&mut plan, part);
                },
                Err(e) => {
                    return Err(e);
                },
            }
            k = k + 1;
        }
        Ok(plan)
    }

    /// Plan that gives each detected chip its address: chip `k` of the
    /// chain gets `4 * k`. The chain takes in one address per chip and
    /// passes the following ones on.
    pub fn assign_chip_addresses(&self) -> (r: Result<Vec<Op>, Error>)
        ensures
            self@.chip_count == 0 ==> r == Err::<Vec<Op>, Error>(Error::NoChips),
            self@.chip_count >= MAX_CHIPS_ON_CHAIN ==> r == Err::<Vec<Op>, Error>(
                Error::TooManyChips,
            ),
            0 < self@.chip_count < MAX_CHIPS_ON_CHAIN ==> (r matches Ok(plan) && plan@
                == assign_chip_addresses_plan(self@.chip_count as nat)),
    {
        let per_chip = |addr: u8| -> (r: Result<Vec<Op>, Error>)
            requires
                addr % 4 == 0,
            ensures
                r matches Ok(plan) && plan@ == set_chip_address_plan(addr),
            {
                let cmd: Vec<u8> = SetChipAddressCmd::new(addr).pack();
                Ok(Self::send_ctl_cmd(cmd.as_slice(), false))
            };
        assert forall|k: int| 0 <= k < MAX_CHIPS_ON_CHAIN implies #[trigger] chip_address(k) % 4
            == 0 by {}
        let r = self.for_all_chips(per_chip);
        proof {
            if let Ok(ref plan) = r {
                let parts = choose|parts: Seq<Vec<Op>>|
                    {
                        &&& parts.len() == self@.chip_count
                        &&& returned_by(per_chip, parts)
                        &&& plan@ == joined(parts, parts.len())
                    };
                lemma_joined_is_chain_plan(
                    parts,
                    parts.len(),
                    |addr: u8| set_chip_address_plan(addr),
                );
            }
        }
        r
    }

    /// Plan that loads the PLL register of each detected chip with its
    /// starting value.
    pub fn set_pll(&self) -> (r: Result<Vec<Op>, Error>)
        ensures
            self@.chip_count == 0 ==> r == Err::<Vec<Op>, Error>(Error::NoChips),
            self@.chip_count >= MAX_CHIPS_ON_CHAIN ==> r == Err::<Vec<Op>, Error>(
                Error::TooManyChips,
            ),
            0 < self@.chip_count < MAX_CHIPS_ON_CHAIN ==> (r matches Ok(plan) && plan@
                == set_pll_plan(self@.chip_count as nat)),
    {
        let per_chip = |addr: u8| -> (r: Result<Vec<Op>, Error>)
            ensures
                r matches Ok(plan) && plan@ == set_chip_pll_plan(addr),
            {
                let cmd: Vec<u8> = SetConfigCmd::new(
                    addr,
                    false,
                    bm1387::PLL_PARAM_REG,
                    PLL_PARAM,
                ).pack();
                Ok(Self::send_ctl_cmd(cmd.as_slice(), false))
            };
        let r = self.for_all_chips(per_chip);
        proof {
            if let Ok(ref plan) = r {
                let parts = choose|parts: Seq<Vec<Op>>|
                    {
                        &&& parts.len() == self@.chip_count
                        &&& returned_by(per_chip, parts)
                        &&& plan@ == joined(parts, parts.len())
                    };
                lemma_joined_is_chain_plan(parts, parts.len(), |addr: u8| set_chip_pll_plan(addr));
            }
        }
        r
    }

    /// Plan that enables hashing on the chain. It ends with a wait until
    /// every command has been sent.
    pub fn configure_hash_chain() -> (plan: Vec<Op>)
        ensures
            plan@ == configure_hash_chain_plan(),
    {
        let ctl_reg = MiscCtrlReg {
            not_set_baud: true,
            inv_clock: true,
            baud_div: CHIP_BAUD_DIV,
            gate_block: true,
            mmen: true,
        };
        let cmd: Vec<u8> = SetConfigCmd::new(
            0,
            true,
            bm1387::MISC_CONTROL_REG,
            ctl_reg.to_reg(),
        ).pack();
        Self::send_ctl_cmd(cmd.as_slice(), true)
    }

    /// Work IDs are generated with a step that corresponds to the number
    /// of configured midstates.
    pub fn next_work_id(&mut self) -> (work_id: u32)
        ensures
            work_id == old(self)@.work_id,
            final(self)@ == (ChainState {
                work_id: next_work_id(old(self)@.work_id, old(self)@.midstate_count_bits()),
                ..old(self)@
            }),
    {
        let retval: u32 = self.work_id as u32;
        let bits: u8 = self.midstate_count.bits();
        proof {
            lemma_midstates_per_work(bits);
        }
        self.work_id = self.work_id.wrapping_add(1u16 << bits);
        retval
    }

    /// Plan that writes a single word into the work TX FIFO.
    pub fn write_to_work_tx_fifo(item: u32) -> (op: Op)
        ensures
            op == Op::WriteWorkTx(item),
    {
        Op::WriteWorkTx(item)
    }

    /// Plan that writes a single word into the command TX FIFO.
    pub fn write_to_cmd_tx_fifo(item: u32) -> (op: Op)
        ensures
            op == Op::WriteCmdTx(item),
    {
        Op::WriteCmdTx(item)
    }

    /// Extracts the work ID from the result ID.
    pub fn get_work_id_from_result_id(&self, result_id: u32) -> (work_id: u32)
        ensures
            work_id == result_id::work_id(result_id, self@.midstate_count_bits() as u32),
    {
        let bits: u32 = self.midstate_count.bits() as u32;
        (result_id >> result_id::WORK_ID_OFFSET) >> bits
    }

    /// Extracts the midstate index from the result ID.
    pub fn get_midstate_idx_from_result_id(&self, result_id: u32) -> (midstate_idx: usize)
        ensures
            midstate_idx == result_id::midstate_idx(result_id, self@.midstate_count_bits() as u32),
            midstate_idx < midstates_per_work(self@.midstate_count_bits()),
    {
        let bits: u32 = self.midstate_count.bits() as u32;
        proof {
            lemma_midstates_per_work(bits as u8);
            result_id::lemma_fields_partition_word(result_id, bits);
        }
        ((result_id >> result_id::WORK_ID_OFFSET) & ((1u32 << bits) - 1)) as usize
    }

    /// Extracts the solution index from the result ID.
    pub fn get_solution_idx_from_result_id(&self, result_id: u32) -> (solution_idx: usize)
        ensures
            solution_idx == result_id::solution_idx(result_id),
            solution_idx < 256,
    {
        proof {
            result_id::lemma_fields_partition_word(result_id, 0);
        }
        (result_id & 0xff) as usize
    }

    /// Plan that submits a command to the command TX FIFO, as 32-bit words.
    ///
    /// * `wait` - when true, the plan ends with a wait until all commands
    ///   are sent
    ///
    /// The IP core takes whole words only.
    pub fn send_ctl_cmd(cmd: &[u8], wait: bool) -> (plan: Vec<Op>)
        requires
            cmd@.len() % 4 == 0,
        ensures
            plan@ == fifo::ctl_cmd_plan(cmd@, wait),
    {
        let mut plan: Vec<Op> = Vec::new();
        let count: usize = cmd.len() / 4;
        let mut i: usize = 0;
        while i < count
            invariant
                count == cmd@.len() / 4,
                cmd@.len() % 4 == 0,
                cmd@.len() <= usize::MAX,
                i <= count,
                plan@ == Seq::new(i as nat, |j: int| Op::WriteCmdTx(fifo::cmd_words(cmd@)[j])),
            decreases count - i,
        {
            let chunk: &[u8] = vstd::slice::slice_subrange(cmd, 4 * i, 4 * i + 4);
            plan.push(Self::write_to_cmd_tx_fifo(endian::read_u32(chunk)));
            i = i + 1;
            assert(plan@ =~= Seq::new(
                i as nat,
                |j: int| Op::WriteCmdTx(fifo::cmd_words(cmd@)[j]),
            ));
        }
        if wait {
            plan.push(Op::DrainCmdTx);
        }
        assert(plan@ =~= fifo::ctl_cmd_plan(cmd@, wait));
        plan
    }

    /// Builds the response to a command from its first word and what the
    /// read of the second one gave. A response is seven bytes long,
    /// checksum included, so it arrives as two words; the checksum and the
    /// pad byte behind it are dropped.
    ///
    /// An error of the second read is passed on: a torn frame is fatal.
    /// Fails with `FrameDecode` when the bytes are no frame of type `T`.
    pub fn recv_ctl_cmd_resp<T: Frame>(word1: u32, second: Result<u32, Error>) -> (r: Result<
        T,
        Error,
    >)
        ensures
            r == match second {
                Err(e) => Err::<T, Error>(e),
                Ok(word2) => match T::spec_unpack(fifo::resp_frame(word1, word2)) {
                    Some(resp) => Ok::<T, Error>(resp),
                    None => Err::<T, Error>(Error::FrameDecode),
                },
            },
    {
        match second {
            Err(e) => Err(e),
            Ok(word2) => {
                let low: [u8; 4] = endian::write_u32(word1);
                let high: [u8; 4] = endian::write_u32(word2);
                let mut cmd_resp: Vec<u8> = Vec::new();
                cmd_resp.push(low[0]);
                cmd_resp.push(low[1]);
                cmd_resp.push(low[2]);
                cmd_resp.push(low[3]);
                cmd_resp.push(high[0]);
                cmd_resp.push(high[1]);
                assert(cmd_resp@ =~= fifo::resp_frame(word1, word2));
                T::unpack_from_slice(cmd_resp.as_slice())
            },
        }
    }

    /// Plan that submits `work`, with the ID that the work was given. The
    /// plan writes the words of the work in one run.
    ///
    /// * `tick` - what the heartbeat tick came to that goes ahead of every
    ///   submission
    ///
    /// A tick that failed fails the submission with its error. Fails with
    /// `MidstateCountMismatch` unless the work carries as many midstates
    /// as the controller was created for. A submission that fails takes no
    /// ID and plans no write.
    pub fn send_work(&mut self, work: &MiningWork, tick: Result<(), Error>) -> (r: Result<
        (u32, Vec<Op>),
        Error,
    >)
        ensures
            tick matches Err(e) ==> r == Err::<(u32, Vec<Op>), Error>(e),
            tick is Ok && work.midstates@.len() != midstates_per_work(
                old(self)@.midstate_count_bits(),
            ) ==> r == Err::<(u32, Vec<Op>), Error>(
                Error::MidstateCountMismatch {
                    configured: midstates_per_work(old(self)@.midstate_count_bits()),
                    submitted: work.midstates@.len() as usize,
                },
            ),
            tick is Ok && work.midstates@.len() == midstates_per_work(
                old(self)@.midstate_count_bits(),
            ) ==> (r matches Ok((work_id, plan)) && work_id == old(self)@.work_id && plan@
                == fifo::work_plan(work_id, *work)),
            final(self)@ == if r is Ok {
                ChainState {
                    work_id: next_work_id(old(self)@.work_id, old(self)@.midstate_count_bits()),
                    ..old(self)@
                }
            } else {
                old(self)@
            },
    {
        if let Err(e) = tick {
            return Err(e);
        }
        let bits: u8 = self.midstate_count.bits();
        proof {
            lemma_midstates_per_work(bits);
        }
        let configured: usize = 1usize << bits;
        if work.midstates.len() != configured {
            return Err(
                Error::MidstateCountMismatch { configured, submitted: work.midstates.len() },
            );
        }
        let work_id: u32 = self.next_work_id();
        let mut plan: Vec<Op> = Vec::new();
        plan.push(Self::write_to_work_tx_fifo(work_id));
        plan.push(Self::write_to_work_tx_fifo(work.nbits));
        plan.push(Self::write_to_work_tx_fifo(work.ntime));
        plan.push(Self::write_to_work_tx_fifo(work.merkle_root_lsw));
        let mut m: usize = 0;
        while m < work.midstates.len()
            invariant
                m <= work.midstates@.len() <= 4,
                plan@ == Seq::new(
                    (4 + 8 * m) as nat,
                    |i: int| Op::WriteWorkTx(fifo::work_word(work_id, *work, i)),
                ),
            decreases work.midstates@.len() - m,
        {
            let midstate = &work.midstates[m];
            // The chips expect the midstate in reverse word order
            let mut w: usize = 0;
            while w < 8
                invariant
                    m < work.midstates@.len() <= 4,
                    w <= 8,
                    *midstate == work.midstates@[m as int],
                    plan@ == Seq::new(
                        (4 + 8 * m + w) as nat,
                        |i: int| Op::WriteWorkTx(fifo::work_word(work_id, *work, i)),
                    ),
                decreases 8 - w,
            {
                plan.push(Self::write_to_work_tx_fifo(midstate.words[7 - w]));
                w = w + 1;
                assert(plan@ =~= Seq::new(
                    (4 + 8 * m + w) as nat,
                    |i: int| Op::WriteWorkTx(fifo::work_word(work_id, *work, i)),
                ));
            }
            m = m + 1;
        }
        Ok((work_id, plan))
    }

    /// Plan that looks for a work result.
    pub fn recv_work_result() -> (plan: Vec<Op>)
        ensures
            plan@ == recv_work_result_plan(),
    {
        let mut plan: Vec<Op> = Vec::new();
        plan.push(Op::HeartBeatTick);
        plan.push(Op::ReceiveWorkResult);
        assert(plan@ =~= recv_work_result_plan());
        plan
    }

    /// Builds a work result from its first word and what the read of the
    /// second one gave. An error of the second read is passed on.
    pub fn work_result(&self, nonce: u32, second: Result<u32, Error>) -> (r: Result<
        MiningWorkResult,
        Error,
    >)
        ensures
            r == match second {
                Err(e) => Err::<MiningWorkResult, Error>(e),
                Ok(word2) => Ok::<MiningWorkResult, Error>(
                    MiningWorkResult {
                        nonce,
                        ntime: None,
                        midstate_idx: result_id::midstate_idx(
                            word2,
                            self@.midstate_count_bits() as u32,
                        ) as usize,
                        result_id: word2 & fifo::RESULT_ID_MASK,
                    },
                ),
            },
    {
        match second {
            Err(e) => Err(e),
            Ok(word2) => Ok(
                MiningWorkResult {
                    nonce,
                    // this hardware doesn't do any nTime rolling, keep it @ None
                    ntime: None,
                    midstate_idx: self.get_midstate_idx_from_result_id(word2),
                    // leave the result ID as-is so that the solution index
                    // can be extracted later
                    result_id: word2 & fifo::RESULT_ID_MASK,
                },
            ),
        }
    }

    /// The ID of the work that `result` solves.
    pub fn get_work_id_from_result(&self, result: &MiningWorkResult) -> (work_id: u32)
        ensures
            work_id == result_id::work_id(result.result_id, self@.midstate_count_bits() as u32),
    {
        self.get_work_id_from_result_id(result.result_id)
    }

    /// Number of chips that have been detected.
    pub fn get_chip_count(&self) -> (chip_count: usize)
        ensures
            chip_count == self@.chip_count,
    {
        self.chip_count
    }
}

/// Whether `parts` are plans that `f` can return for the first chips of
/// the chain, one for each in the order of their addresses.
pub open spec fn returned_by<F: Fn(u8) -> Result<Vec<Op>, Error>>(
    f: F,
    parts: Seq<Vec<Op>>,
) -> bool {
    forall|k: int|
        0 <= k < parts.len() ==> call_ensures(
            f,
            (chip_address(k),),
            Ok::<Vec<Op>, Error>(#[trigger] parts[k]),
        )
}

/// The plans of the first `n` of `parts`, one after the other.
pub open spec fn joined(parts: Seq<Vec<Op>>, n: nat) -> Seq<Op>
    decreases n,
{
    if n == 0 {
        Seq::empty()
    } else {
        joined(parts, (n - 1) as nat) + parts[n - 1]@
    }
}

/// Joining a prefix looks at the prefix only.
proof fn lemma_joined_prefix(a: Seq<Vec<Op>>, b: Seq<Vec<Op>>, n: nat)
    requires
        n <= a.len() <= b.len(),
        forall|i: int| 0 <= i < a.len() ==> a[i] == b[i],
    ensures
        joined(a, n) == joined(b, n),
    decreases n,
{
    if n > 0 {
        lemma_joined_prefix(a, b, (n - 1) as nat);
    }
}

/// Parts that are each the plan of their chip join to the plan of the
/// chain.
proof fn lemma_joined_is_chain_plan(
    parts: Seq<Vec<Op>>,
    n: nat,
    per_chip: spec_fn(u8) -> Seq<Op>,
)
    requires
        n <= parts.len(),
        forall|k: int| 0 <= k < parts.len() ==> (#[trigger] parts[k])@ == per_chip(chip_address(k)),
    ensures
        joined(parts, n) == chain_plan(n, per_chip),
    decreases n,
{
    if n > 0 {
        lemma_joined_is_chain_plan(parts, (n - 1) as nat, per_chip);
    }
}

} // verus!
