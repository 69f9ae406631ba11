use bosminer::error::{Error, Fifo, VoltageFault};
use bosminer::hal::s9::bm1387::{GetAddressReg, GetStatusCmd};
use bosminer::hal::s9::fifo::{first_word, rx_backoff, rx_ready};
use bosminer::hal::s9::op::{MidstateCount, Op, PinLevel};
use bosminer::hal::s9::HChainCtl;
use bosminer::hal::{Midstate, MiningWork, MiningWorkResult};

fn board(midstate_count: MidstateCount) -> HChainCtl {
    HChainCtl::new(PinLevel::High, midstate_count).unwrap()
}

fn midstate(base: u32) -> Midstate {
    Midstate {
        words: [base, base + 1, base + 2, base + 3, base + 4, base + 5, base + 6, base + 7],
    }
}

fn work(midstates: usize) -> MiningWork {
    MiningWork {
        nbits: 0x1705_ae3a,
        ntime: 0x5c11_f5e9,
        merkle_root_lsw: 0xdead_beef,
        midstates: (0..midstates).map(|i| midstate(0x100 * (i as u32 + 1))).collect(),
    }
}

#[test]
fn commands_travel_least_significant_byte_first() {
    assert_eq!(
        HChainCtl::send_ctl_cmd(&[0x01, 0x02, 0x03, 0x04], false),
        vec![Op::WriteCmdTx(0x0403_0201)]
    );
    assert_eq!(
        HChainCtl::send_ctl_cmd(&[0x48, 0x09, 0x00, 0x0c, 0x00, 0x68, 0x02, 0x21], false),
        vec![Op::WriteCmdTx(0x0c00_0948), Op::WriteCmdTx(0x2102_6800)]
    );
}

#[test]
fn a_waiting_command_ends_with_a_drain() {
    assert_eq!(
        HChainCtl::send_ctl_cmd(&[0xff, 0x00, 0x00, 0x80], true),
        vec![Op::WriteCmdTx(0x8000_00ff), Op::DrainCmdTx]
    );
    assert_eq!(HChainCtl::send_ctl_cmd(&[], true), vec![Op::DrainCmdTx]);
    assert_eq!(HChainCtl::send_ctl_cmd(&[], false), vec![]);
}

#[test]
fn a_response_is_built_from_two_words() {
    // the seventh byte is the checksum, the eighth pads the word
    let resp = HChainCtl::recv_ctl_cmd_resp::<GetAddressReg>(0x0490_8713, Ok(0xaa1c_0201));
    assert_eq!(
        resp,
        Ok(GetAddressReg { chip_rev: 0x1387, reserved1: 0x90, addr: 0x04, reserved2: 1, reserved3: 2 })
    );
}

#[test]
fn a_response_of_another_type_does_not_decode() {
    let resp = HChainCtl::recv_ctl_cmd_resp::<GetStatusCmd>(0x0490_8713, Ok(0));
    assert_eq!(resp, Err(Error::FrameDecode));
}

#[test]
fn a_timeout_on_the_first_word_means_no_response() {
    assert_eq!(first_word(Err(Error::Timeout(Fifo::CmdRx))), Ok(None));
    assert_eq!(first_word(Err(Error::Timeout(Fifo::WorkRx))), Ok(None));
}

#[test]
fn other_errors_on_the_first_word_are_passed_on() {
    assert_eq!(first_word(Err(Error::MapFailure)), Err(Error::MapFailure));
    assert_eq!(first_word(Err(Error::GpioFailure)), Err(Error::GpioFailure));
    assert_eq!(
        first_word(Err(Error::VoltageCtrlFailure(VoltageFault::Io))),
        Err(Error::VoltageCtrlFailure(VoltageFault::Io))
    );
    assert_eq!(
        first_word(Err(Error::VoltageCtrlFailure(VoltageFault::Timeout))),
        Err(Error::VoltageCtrlFailure(VoltageFault::Timeout))
    );
}

#[test]
fn a_first_word_asks_for_the_second() {
    assert_eq!(first_word(Ok(0)), Ok(Some(0)));
    assert_eq!(first_word(Ok(0xffff_ffff)), Ok(Some(0xffff_ffff)));
}

#[test]
fn a_timeout_on_the_second_word_is_fatal() {
    assert_eq!(
        HChainCtl::recv_ctl_cmd_resp::<GetAddressReg>(0x0490_8713, Err(Error::Timeout(Fifo::CmdRx))),
        Err(Error::Timeout(Fifo::CmdRx))
    );
    assert_eq!(
        board(MidstateCount::One).work_result(7, Err(Error::Timeout(Fifo::WorkRx))),
        Err(Error::Timeout(Fifo::WorkRx))
    );
}

#[test]
fn an_empty_receive_fifo_gets_one_second_look() {
    assert_eq!(rx_backoff(true), vec![Op::Sleep(5)]);
    assert_eq!(rx_backoff(false), vec![]);
    assert_eq!(rx_ready(Fifo::WorkRx, false), Ok(()));
    assert_eq!(rx_ready(Fifo::CmdRx, false), Ok(()));
    assert_eq!(rx_ready(Fifo::WorkRx, true), Err(Error::Timeout(Fifo::WorkRx)));
    assert_eq!(rx_ready(Fifo::CmdRx, true), Err(Error::Timeout(Fifo::CmdRx)));
}

#[test]
fn a_heartbeat_tick_precedes_the_receipt_of_a_result() {
    assert_eq!(
        HChainCtl::recv_work_result(),
        vec![Op::HeartBeatTick, Op::ReceiveWorkResult]
    );
}

#[test]
fn a_work_result_is_built_from_two_words() {
    let ctl = board(MidstateCount::Two);
    assert_eq!(
        ctl.work_result(0x1234_5678, Ok(0xab12_3502)),
        Ok(MiningWorkResult {
            nonce: 0x1234_5678,
            ntime: None,
            midstate_idx: 1,
            result_id: 0x0012_3502,
        })
    );
    let result = ctl.work_result(1, Ok(0xab12_3502)).unwrap();
    assert_eq!(ctl.get_work_id_from_result(&result), 0x091a);
    assert_eq!(ctl.get_solution_idx_from_result_id(result.result_id), 2);
}

#[test]
fn work_is_written_with_midstates_in_reverse_word_order() {
    let mut ctl = board(MidstateCount::One);
    let (work_id, plan) = ctl.send_work(&work(1), Ok(())).unwrap();
    assert_eq!(work_id, 0);
    assert_eq!(
        plan,
        vec![
            Op::WriteWorkTx(0),
            Op::WriteWorkTx(0x1705_ae3a),
            Op::WriteWorkTx(0x5c11_f5e9),
            Op::WriteWorkTx(0xdead_beef),
            Op::WriteWorkTx(0x107),
            Op::WriteWorkTx(0x106),
            Op::WriteWorkTx(0x105),
            Op::WriteWorkTx(0x104),
            Op::WriteWorkTx(0x103),
            Op::WriteWorkTx(0x102),
            Op::WriteWorkTx(0x101),
            Op::WriteWorkTx(0x100),
        ]
    );
}

#[test]
fn midstates_are_written_in_their_order() {
    let mut ctl = board(MidstateCount::Four);
    ctl.next_work_id();
    let (work_id, plan) = ctl.send_work(&work(4), Ok(())).unwrap();
    assert_eq!(work_id, 4);
    assert_eq!(plan.len(), 4 + 4 * 8);
    assert_eq!(plan[0], Op::WriteWorkTx(4));
    for m in 0..4u32 {
        for w in 0..8u32 {
            assert_eq!(
                plan[(4 + 8 * m + w) as usize],
                Op::WriteWorkTx(0x100 * (m + 1) + 7 - w)
            );
        }
    }
}

#[test]
fn work_with_another_midstate_count_is_rejected() {
    let mut ctl = board(MidstateCount::Two);
    assert_eq!(
        ctl.send_work(&work(1), Ok(())),
        Err(Error::MidstateCountMismatch { configured: 2, submitted: 1 })
    );
    assert_eq!(
        ctl.send_work(&work(4), Ok(())),
        Err(Error::MidstateCountMismatch { configured: 2, submitted: 4 })
    );
    assert_eq!(
        ctl.send_work(&work(0), Ok(())),
        Err(Error::MidstateCountMismatch { configured: 2, submitted: 0 })
    );
    // no ID was taken by the rejected works
    assert_eq!(ctl.send_work(&work(2), Ok(())).unwrap().0, 0);
    let mut ctl = board(MidstateCount::One);
    assert_eq!(
        ctl.send_work(&work(2), Ok(())),
        Err(Error::MidstateCountMismatch { configured: 1, submitted: 2 })
    );
    let mut ctl = board(MidstateCount::Four);
    assert_eq!(
        ctl.send_work(&work(3), Ok(())),
        Err(Error::MidstateCountMismatch { configured: 4, submitted: 3 })
    );
}

#[test]
fn a_failed_heartbeat_tick_fails_the_submission() {
    for tick in [
        Error::VoltageCtrlFailure(VoltageFault::Io),
        Error::VoltageCtrlFailure(VoltageFault::Timeout),
        Error::SystemTime,
    ] {
        let mut ctl = board(MidstateCount::Two);
        assert_eq!(ctl.send_work(&work(2), Ok(())).unwrap().0, 0);
        assert_eq!(ctl.send_work(&work(2), Err(tick)), Err(tick));
        // the tick comes first: its error wins over that of the work
        assert_eq!(ctl.send_work(&work(3), Err(tick)), Err(tick));
        // no ID was taken by the failed submissions
        assert_eq!(ctl.send_work(&work(2), Ok(())).unwrap().0, 2);
    }
}

#[test]
fn work_ids_form_an_arithmetic_progression() {
    for (count, midstates, step) in [
        (MidstateCount::One, 1usize, 1u32),
        (MidstateCount::Two, 2, 2),
        (MidstateCount::Four, 4, 4),
    ] {
        let mut ctl = board(count);
        let job = work(midstates);
        for k in 0..100u32 {
            assert_eq!(ctl.send_work(&job, Ok(())).unwrap().0, k * step);
        }
    }
}

#[test]
fn work_ids_wrap_at_sixteen_bits() {
    let mut ctl = board(MidstateCount::Four);
    for k in 0..0x4000u32 {
        assert_eq!(ctl.next_work_id(), 4 * k);
    }
    assert_eq!(ctl.next_work_id(), 0);
    assert_eq!(ctl.next_work_id(), 4);
    let mut ctl = board(MidstateCount::One);
    for k in 0..0x1_0000u32 {
        assert_eq!(ctl.next_work_id(), k);
    }
    assert_eq!(ctl.next_work_id(), 0);
}
