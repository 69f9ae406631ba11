use bosminer::error::{Error, Fifo, VoltageFault};
use bosminer::hal::s9::bm1387::GetAddressReg;
use bosminer::hal::s9::op::{MidstateCount, Op, PinLevel, VoltageCmd};
use bosminer::hal::s9::HChainCtl;

fn board(midstate_count: MidstateCount) -> HChainCtl {
    HChainCtl::new(PinLevel::High, midstate_count).expect("Failed to create hash board instance")
}

fn bm1387_at(addr: u8) -> GetAddressReg {
    GetAddressReg { chip_rev: 0x1387, reserved1: 0x90, addr, reserved2: 0, reserved3: 0 }
}

fn board_with_chips(chips: usize) -> HChainCtl {
    let mut ctl = board(MidstateCount::One);
    for _ in 0..chips {
        ctl.chip_detected(&bm1387_at(0)).unwrap();
    }
    ctl
}

#[test]
fn test_hchain_ctl_instance() {
    let h_chain_ctl = HChainCtl::new(PinLevel::High, MidstateCount::One);
    match h_chain_ctl {
        Ok(_) => assert!(true),
        Err(e) => assert!(false, "Failed to instantiate hash chain, error: {:?}", e),
    }
}

#[test]
fn test_hchain_ctl_init() {
    let h_chain_ctl = HChainCtl::new(PinLevel::High, MidstateCount::One)
        .expect("Failed to create hash board instance");

    let plan = h_chain_ctl.ip_core_init();
    assert!(plan.is_ok(), "Failed to initialize IP core");
    let plan = plan.unwrap();

    // verify sane register values
    assert!(
        plan.contains(&Op::WriteWorkTime(50000)),
        "Unexpected work time value"
    );
    assert!(
        plan.contains(&Op::WriteBaudReg(0x1b)),
        "Unexpected baudrate register value"
    );
    assert!(
        plan.contains(&Op::WriteMidstateCount(0)),
        "Unexpected midstate count"
    );
    assert_eq!(plan.last(), Some(&Op::WriteMidstateCount(0)));
}

/// This test verifies correct parsing of work result for all multi-midstate configurations.
/// The result_word represents the second word of the work result (after nonce) provided by the
/// FPGA IP core
#[test]
fn test_get_result_word_attributes() {
    let result_word = 0x00123502;
    struct ExpectedResultData {
        work_id: u32,
        midstate_idx: usize,
        solution_idx: usize,
        midstate_count: MidstateCount,
    }
    let expected_result_data = [
        ExpectedResultData {
            work_id: 0x1235,
            midstate_idx: 0,
            solution_idx: 2,
            midstate_count: MidstateCount::One,
        },
        ExpectedResultData {
            work_id: 0x1235 >> 1,
            midstate_idx: 1,
            solution_idx: 2,
            midstate_count: MidstateCount::Two,
        },
        ExpectedResultData {
            work_id: 0x1235 >> 2,
            midstate_idx: 1,
            solution_idx: 2,
            midstate_count: MidstateCount::Four,
        },
    ];
    for (i, expected_result_data) in expected_result_data.iter().enumerate() {
        let expected_data = (
            expected_result_data.work_id,
            expected_result_data.midstate_idx,
            expected_result_data.solution_idx,
        );
        let h_chain_ctl =
            HChainCtl::new(PinLevel::High, expected_result_data.midstate_count).unwrap();

        assert_eq!(
            h_chain_ctl.get_work_id_from_result_id(result_word),
            expected_result_data.work_id,
            "Invalid work ID, iteration: {}, test data: {:#06x?}",
            i,
            expected_data
        );
        assert_eq!(
            h_chain_ctl.get_midstate_idx_from_result_id(result_word),
            expected_result_data.midstate_idx,
            "Invalid midstate index, iteration: {}, test data: {:#06x?}",
            i,
            expected_data
        );
        assert_eq!(
            h_chain_ctl.get_solution_idx_from_result_id(result_word),
            expected_result_data.solution_idx,
            "Invalid solution index, iteration: {}, test data: {:#06x?}",
            i,
            expected_data
        );
    }
}

#[test]
fn result_word_literal_values() {
    let one = board(MidstateCount::One);
    assert_eq!(one.get_work_id_from_result_id(0x00123502), 0x1235);
    assert_eq!(one.get_midstate_idx_from_result_id(0x00123502), 0);
    assert_eq!(one.get_solution_idx_from_result_id(0x00123502), 2);
    let two = board(MidstateCount::Two);
    assert_eq!(two.get_work_id_from_result_id(0x00123502), 0x091a);
    assert_eq!(two.get_midstate_idx_from_result_id(0x00123502), 1);
    let four = board(MidstateCount::Four);
    assert_eq!(four.get_work_id_from_result_id(0x00123502), 0x048d);
    assert_eq!(four.get_midstate_idx_from_result_id(0x00123502), 1);
    assert_eq!(four.get_midstate_idx_from_result_id(0x00123702), 3);
}

#[test]
fn result_word_fields_partition_the_word() {
    let words = [0u32, 1, 0xff, 0x100, 0x00123502, 0x00ffffff, 0xdeadbeef, 0xffffffff];
    let counts = [MidstateCount::One, MidstateCount::Two, MidstateCount::Four];
    for count in counts.iter() {
        let ctl = board(*count);
        let mbits = ctl.midstate_count_bits() as u32;
        for word in words.iter() {
            let work_id = ctl.get_work_id_from_result_id(*word);
            let midstate_idx = ctl.get_midstate_idx_from_result_id(*word) as u32;
            let solution_idx = ctl.get_solution_idx_from_result_id(*word) as u32;
            assert!(solution_idx < 256);
            assert!(midstate_idx < (1 << mbits));
            assert_eq!(
                (work_id << (8 + mbits)) | (midstate_idx << 8) | solution_idx,
                *word
            );
        }
    }
}

#[test]
fn construction_with_plug_pin_low_fails() {
    assert_eq!(
        HChainCtl::new(PinLevel::Low, MidstateCount::One).err(),
        Some(Error::NotPresent)
    );
    assert_eq!(
        HChainCtl::new(PinLevel::Low, MidstateCount::Four).err(),
        Some(Error::NotPresent)
    );
}

#[test]
fn a_new_controller_knows_no_chips() {
    let ctl = board(MidstateCount::Four);
    assert_eq!(ctl.get_chip_count(), 0);
    assert_eq!(ctl.midstate_count_bits(), 2);
    assert_eq!(MidstateCount::One.bits(), 0);
    assert_eq!(MidstateCount::Two.bits(), 1);
    assert_eq!(MidstateCount::Four.bits(), 2);
}

#[test]
fn single_register_plans() {
    assert_eq!(HChainCtl::enable_ip_core(), Op::EnableIpCore(true));
    assert_eq!(HChainCtl::disable_ip_core(), Op::EnableIpCore(false));
    assert_eq!(HChainCtl::set_work_time(50000), Op::WriteWorkTime(50000));
    assert_eq!(HChainCtl::set_work_time(7), Op::WriteWorkTime(7));
    assert_eq!(HChainCtl::write_to_work_tx_fifo(0xabcd), Op::WriteWorkTx(0xabcd));
    assert_eq!(HChainCtl::write_to_cmd_tx_fifo(0x1234), Op::WriteCmdTx(0x1234));
    assert_eq!(board(MidstateCount::Two).set_midstate_count(), Op::WriteMidstateCount(1));
}

#[test]
fn set_baud_ignores_its_argument() {
    assert_eq!(HChainCtl::set_baud(115200), Op::WriteBaudReg(0x1b));
    assert_eq!(HChainCtl::set_baud(9600), Op::WriteBaudReg(0x1b));
    assert_eq!(HChainCtl::set_baud(0), Op::WriteBaudReg(0x1b));
}

#[test]
fn ip_core_init_plan_in_order() {
    assert_eq!(
        board(MidstateCount::Four).ip_core_init().unwrap(),
        vec![
            Op::EnableIpCore(false),
            Op::EnableIpCore(true),
            Op::WriteBaudReg(0x1b),
            Op::WriteWorkTime(50000),
            Op::WriteMidstateCount(2),
        ]
    );
}

#[test]
fn reset_keeps_the_ip_core_off_while_the_line_is_low() {
    assert_eq!(
        HChainCtl::enter_reset(),
        vec![Op::EnableIpCore(false), Op::SetRstPin(PinLevel::Low)]
    );
    assert_eq!(
        HChainCtl::exit_reset(),
        vec![Op::SetRstPin(PinLevel::High), Op::EnableIpCore(true)]
    );
}

#[test]
fn voltage_ctrl_version_is_checked() {
    assert_eq!(HChainCtl::check_voltage_ctrl_version(3), Ok(()));
    assert_eq!(
        HChainCtl::check_voltage_ctrl_version(2),
        Err(Error::VoltageCtrlFailure(VoltageFault::Version))
    );
    assert_eq!(
        HChainCtl::check_voltage_ctrl_version(0xff),
        Err(Error::VoltageCtrlFailure(VoltageFault::Version))
    );
}

#[test]
fn init_plan_in_order() {
    let mut ctl = board_with_chips(5);
    let plan = ctl.init();
    // the chips are forgotten where the plan receives them, not before
    assert_eq!(ctl.get_chip_count(), 5);
    assert_eq!(
        plan,
        vec![
            // IP core
            Op::EnableIpCore(false),
            Op::EnableIpCore(true),
            Op::WriteBaudReg(0x1b),
            Op::WriteWorkTime(50000),
            Op::WriteMidstateCount(0),
            // voltage controller
            Op::Voltage(VoltageCmd::Reset),
            Op::Voltage(VoltageCmd::JumpFromLoaderToApp),
            Op::CheckVoltageCtrlVersion,
            Op::Voltage(VoltageCmd::SetVoltage(6)),
            Op::Voltage(VoltageCmd::EnableVoltage),
            // power cycle in reset
            Op::EnableIpCore(false),
            Op::SetRstPin(PinLevel::Low),
            Op::Voltage(VoltageCmd::DisableVoltage),
            Op::Sleep(1000),
            Op::Voltage(VoltageCmd::EnableVoltage),
            Op::Sleep(2000),
            Op::HeartBeatTick,
            Op::SetRstPin(PinLevel::High),
            Op::EnableIpCore(true),
            Op::Sleep(1000),
            // enumeration
            Op::WriteCmdTx(0x0000_0554),
            Op::ReceiveChips,
            Op::HeartBeatTick,
            Op::CheckChipCount,
            Op::WriteCmdTx(0x0000_0555),
            Op::Sleep(100),
            Op::WriteCmdTx(0x0000_0555),
            Op::Sleep(100),
            Op::WriteCmdTx(0x0000_0555),
            Op::Sleep(100),
            Op::HeartBeatTick,
            Op::AssignChipAddresses,
            Op::HeartBeatTick,
            // PLL and hashing
            Op::SetPll,
            Op::WriteCmdTx(0x1c00_0958),
            Op::WriteCmdTx(0x809a_2040),
            Op::DrainCmdTx,
        ]
    );
}

#[test]
fn enumerate_chips_plan_in_order() {
    let plan = HChainCtl::enumerate_chips();
    assert_eq!(
        plan,
        vec![
            Op::WriteCmdTx(0x0000_0554),
            Op::ReceiveChips,
            Op::HeartBeatTick,
            Op::CheckChipCount,
            Op::WriteCmdTx(0x0000_0555),
            Op::Sleep(100),
            Op::WriteCmdTx(0x0000_0555),
            Op::Sleep(100),
            Op::WriteCmdTx(0x0000_0555),
            Op::Sleep(100),
            Op::HeartBeatTick,
            Op::AssignChipAddresses,
            Op::HeartBeatTick,
        ]
    );
}

#[test]
fn the_count_of_chips_starts_anew() {
    let mut ctl = board_with_chips(7);
    assert_eq!(ctl.next_work_id(), 0);
    ctl.forget_chips();
    assert_eq!(ctl.get_chip_count(), 0);
    // the rest of the books stays
    assert_eq!(ctl.next_work_id(), 1);
    assert_eq!(ctl.chip_detected(&bm1387_at(0)), Ok(()));
    assert_eq!(ctl.get_chip_count(), 1);
}

#[test]
fn chips_are_counted() {
    let mut ctl = board(MidstateCount::One);
    assert_eq!(ctl.chip_detected(&bm1387_at(0)), Ok(()));
    assert_eq!(ctl.get_chip_count(), 1);
    assert_eq!(ctl.chip_detected(&bm1387_at(0)), Ok(()));
    assert_eq!(ctl.chip_detected(&bm1387_at(0)), Ok(()));
    assert_eq!(ctl.get_chip_count(), 3);
}

#[test]
fn a_foreign_chip_fails_the_enumeration() {
    let mut ctl = board_with_chips(2);
    let foreign = GetAddressReg { chip_rev: 0x1385, reserved1: 0, addr: 0, reserved2: 0, reserved3: 0 };
    assert_eq!(
        ctl.chip_detected(&foreign),
        Err(Error::ChipRevMismatch { expected: 0x1387, got: 0x1385, index: 2 })
    );
    assert_eq!(ctl.get_chip_count(), 2);
}

#[test]
fn chip_count_bounds() {
    assert_eq!(board_with_chips(0).check_chip_count(), Err(Error::NoChips));
    assert_eq!(board_with_chips(1).check_chip_count(), Ok(()));
    assert_eq!(board_with_chips(63).check_chip_count(), Ok(()));
    assert_eq!(board_with_chips(64).check_chip_count(), Err(Error::TooManyChips));
    assert_eq!(board_with_chips(65).check_chip_count(), Err(Error::TooManyChips));
    assert_eq!(board_with_chips(300).check_chip_count(), Err(Error::TooManyChips));
}

#[test]
fn successful_enumerations_stay_within_the_chain() {
    for chips in 0..80 {
        let ctl = board_with_chips(chips);
        if ctl.check_chip_count().is_ok() {
            assert!(0 < ctl.get_chip_count() && ctl.get_chip_count() < 64);
        }
    }
}

#[test]
fn chip_addresses_go_in_steps_of_four() {
    let ctl = board_with_chips(3);
    assert_eq!(
        ctl.assign_chip_addresses(),
        Ok(vec![
            Op::WriteCmdTx(0x0000_0541),
            Op::WriteCmdTx(0x0004_0541),
            Op::WriteCmdTx(0x0008_0541),
        ])
    );
    let full = board_with_chips(63).assign_chip_addresses().unwrap();
    assert_eq!(full.len(), 63);
    assert_eq!(full[62], Op::WriteCmdTx(0x00f8_0541));
}

#[test]
fn chain_plans_need_a_chain_within_bounds() {
    assert_eq!(board_with_chips(0).assign_chip_addresses(), Err(Error::NoChips));
    assert_eq!(board_with_chips(64).assign_chip_addresses(), Err(Error::TooManyChips));
    assert_eq!(board_with_chips(0).set_pll(), Err(Error::NoChips));
    assert_eq!(board_with_chips(70).set_pll(), Err(Error::TooManyChips));
}

#[test]
fn pll_is_loaded_chip_by_chip() {
    let ctl = board_with_chips(2);
    assert_eq!(
        ctl.set_pll(),
        Ok(vec![
            Op::WriteCmdTx(0x0c00_0948),
            Op::WriteCmdTx(0x2102_6800),
            Op::WriteCmdTx(0x0c04_0948),
            Op::WriteCmdTx(0x2102_6800),
        ])
    );
}

#[test]
fn hash_chain_configuration_waits_for_the_fifo() {
    assert_eq!(
        HChainCtl::configure_hash_chain(),
        vec![
            Op::WriteCmdTx(0x1c00_0958),
            Op::WriteCmdTx(0x809a_2040),
            Op::DrainCmdTx,
        ]
    );
}

#[test]
fn for_all_chips_joins_the_plans() {
    let ctl = board_with_chips(3);
    let plan = ctl.for_all_chips(|addr| Ok(vec![Op::Sleep(addr as u64), Op::DrainCmdTx]));
    assert_eq!(
        plan,
        Ok(vec![
            Op::Sleep(0),
            Op::DrainCmdTx,
            Op::Sleep(4),
            Op::DrainCmdTx,
            Op::Sleep(8),
            Op::DrainCmdTx,
        ])
    );
}

#[test]
fn for_all_chips_stops_at_the_first_failure() {
    let ctl = board_with_chips(5);
    let seen = std::cell::RefCell::new(Vec::new());
    let plan = ctl.for_all_chips(|addr| {
        seen.borrow_mut().push(addr);
        if addr == 8 {
            Err(Error::Timeout(Fifo::CmdRx))
        } else {
            Ok(vec![Op::Sleep(1)])
        }
    });
    assert_eq!(plan, Err(Error::Timeout(Fifo::CmdRx)));
    assert_eq!(*seen.borrow(), vec![0, 4, 8]);
}

#[test]
fn for_all_chips_without_chips() {
    let called = std::cell::Cell::new(false);
    let plan = board_with_chips(0).for_all_chips(|_| {
        called.set(true);
        Ok(vec![])
    });
    assert_eq!(plan, Err(Error::NoChips));
    let plan = board_with_chips(64).for_all_chips(|_| {
        called.set(true);
        Ok(vec![])
    });
    assert_eq!(plan, Err(Error::TooManyChips));
    assert!(!called.get());
}
