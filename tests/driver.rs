use stm32f767_hal::can::{
    poll_transmit, select_mailbox, transmission_complete, Can, Can1, Can2, CanBitTiming,
    CanConfig, CanError, CanFilterConfig, CanRegisters, FifoRegs, FilterBank, FilterMode,
    FilterScale, Pb12Af9, Pb13Af9, Pd0Af9, Pd1Af9, RxFifo, TxMailbox, TxPoll, MAX_BLOCK_TICKS,
};
use stm32f767_hal::frame::{CanFrame, Identifier, MailboxRegs};
use stm32f767_hal::rcc::APB1;

const TME0: u32 = 1 << 26;
const TME1: u32 = 1 << 27;
const TME2: u32 = 1 << 28;
const DONE0: u32 = TME0 | 0x3;
const DONE1: u32 = TME1 | 0x300;
const ABRQ0: u32 = 1 << 7;
const ABRQ1: u32 = 1 << 15;

fn controller() -> Can<Can1, (Pd1Af9, Pd0Af9)> {
    let mut apb = APB1::new();
    Can::can1(Can1, (Pd1Af9, Pd0Af9), CanRegisters::new(), &mut apb, &CanConfig::default())
        .unwrap()
}

fn small_frame() -> CanFrame {
    CanFrame::DataFrame { id: Identifier::Base(0x100), data: vec![0xDE, 0xAD] }
}

#[test]
fn init_applies_default_config() {
    let mut apb = APB1::new();
    let can = Can::can1(Can1, (Pd1Af9, Pd0Af9), CanRegisters::new(), &mut apb, &CanConfig::default())
        .unwrap();
    assert_eq!(can.regs.mcr, 0x40);
    assert_eq!(can.regs.btr, 0x001E_0005);
    assert_eq!(can.regs.msr, 0x0c02);
    assert_eq!(can.regs.tsr, 0x1c00_0000);
    assert_eq!(apb.enr, 1 << 25);
    assert_eq!(apb.rstr, 0);
}

#[test]
fn init_second_controller_with_debug_modes() {
    let mut apb = APB1::new();
    let mut config = CanConfig::default();
    config.silent_mode = true;
    config.loopback_mode = true;
    config.nart = true;
    config.txfp = true;
    config.abom = false;
    config.bit_timing = CanBitTiming { prescaler: 1023, sjw: 3, bs1: 15, bs2: 7 };
    let mut regs = CanRegisters::new();
    regs.msr = 0x0c0a;
    let can = Can::can2(Can2, (Pb13Af9, Pb12Af9), regs, &mut apb, &config).unwrap();
    assert_eq!(can.regs.mcr, 0x14);
    assert_eq!(can.regs.btr, 0xC37F_03FF);
    assert_eq!(can.regs.msr, 0x0c02);
    assert_eq!(apb.enr, 1 << 26);
}

#[test]
fn init_rejects_bit_timing_out_of_range() {
    let bad = [
        CanBitTiming { prescaler: 1024, sjw: 0, bs1: 0, bs2: 0 },
        CanBitTiming { prescaler: 0, sjw: 4, bs1: 0, bs2: 0 },
        CanBitTiming { prescaler: 0, sjw: 0, bs1: 16, bs2: 0 },
        CanBitTiming { prescaler: 0, sjw: 0, bs1: 0, bs2: 8 },
    ];
    for t in bad {
        let mut apb = APB1::new();
        let mut config = CanConfig::default();
        config.bit_timing = t;
        let r = Can::can1(Can1, (Pd1Af9, Pd0Af9), CanRegisters::new(), &mut apb, &config);
        assert!(matches!(r, Err(CanError::ConfigurationFailed)));
        assert_eq!(apb, APB1::new());
    }
}

#[test]
fn mailbox_selection_order() {
    assert_eq!(select_mailbox(TME0 | TME1 | TME2), Some(TxMailbox::Mailbox0));
    assert_eq!(select_mailbox(TME1 | TME2), Some(TxMailbox::Mailbox1));
    assert_eq!(select_mailbox(TME2), Some(TxMailbox::Mailbox2));
    assert_eq!(select_mailbox(0), None);
}

#[test]
fn transmit_with_all_mailboxes_full_touches_nothing() {
    let mut can = controller();
    can.regs.tsr = 0x0303_0303;
    let before = can.regs;
    assert_eq!(can.transmit(&small_frame()), Err(CanError::BufferExhausted));
    assert_eq!(can.regs, before);
}

#[test]
fn transmit_completes_on_first_mailbox() {
    let mut can = controller();
    can.regs.tsr = DONE0 | TME1 | TME2;
    assert_eq!(can.transmit(&small_frame()), Ok(()));
    assert_eq!(
        can.regs.tx0,
        MailboxRegs { tir: (0x100 << 21) | 0x1, tdtr: 2, tdlr: 0xADDE, tdhr: 0 }
    );
    assert_eq!(can.regs.tsr, DONE0 | TME1 | TME2);
}

#[test]
fn transmit_uses_second_mailbox_when_first_busy() {
    let mut can = controller();
    can.regs.tsr = DONE1;
    assert_eq!(can.transmit(&small_frame()), Ok(()));
    assert_eq!(can.regs.tx0, CanRegisters::new().tx0);
    assert_eq!(can.regs.tx1.tir, (0x100 << 21) | 0x1);
}

#[test]
fn transmit_times_out_and_aborts() {
    let mut can = controller();
    can.regs.tsr = TME0 | TME1 | TME2;
    assert_eq!(can.transmit(&small_frame()), Err(CanError::Timeout));
    assert_eq!(can.regs.tsr, TME0 | TME1 | TME2 | ABRQ0);
    assert_eq!(can.regs.tx0.tir & 0x1, 0x1);
}

#[test]
fn transmit_timeout_on_second_mailbox_sets_its_abort_bit() {
    let mut can = controller();
    can.regs.tsr = TME1;
    assert_eq!(can.transmit(&small_frame()), Err(CanError::Timeout));
    assert_eq!(can.regs.tsr, TME1 | ABRQ1);
}

#[test]
fn poll_budget_is_exact() {
    let tsr = TME0;
    let mut ticks: u32 = 0;
    let mut polls: u32 = 0;
    let mut aborts: u32 = 0;
    loop {
        polls += 1;
        match poll_transmit(ticks, tsr, TxMailbox::Mailbox0) {
            TxPoll::Complete => panic!("never completes"),
            TxPoll::Pending(t) => {
                assert_eq!(t, polls);
                ticks = t;
            }
            TxPoll::Abort => {
                aborts += 1;
                break;
            }
        }
    }
    assert_eq!(polls, MAX_BLOCK_TICKS);
    assert_eq!(MAX_BLOCK_TICKS, 160);
    assert_eq!(aborts, 1);
}

#[test]
fn poll_reports_completion() {
    assert_eq!(poll_transmit(5, DONE0, TxMailbox::Mailbox0), TxPoll::Complete);
    assert!(transmission_complete(DONE1, TxMailbox::Mailbox1));
    assert!(!transmission_complete(TME1 | 0x100, TxMailbox::Mailbox1));
}

#[test]
fn transmit_rejects_long_payload_without_writes() {
    let mut can = controller();
    let before = can.regs;
    let f = CanFrame::DataFrame { id: Identifier::Base(1), data: vec![0; 9] };
    assert_eq!(can.transmit(&f), Err(CanError::InvalidFrame));
    assert_eq!(can.regs, before);
}

#[test]
fn receive_empty_fifo_touches_nothing() {
    let mut can = controller();
    can.regs.rx1.rir = 0x1234;
    let before = can.regs;
    assert_eq!(can.receive(&RxFifo::Fifo0), Err(CanError::BufferExhausted));
    assert_eq!(can.receive(&RxFifo::Fifo1), Err(CanError::BufferExhausted));
    assert_eq!(can.regs, before);
}

#[test]
fn receive_decodes_and_releases() {
    let mut can = controller();
    can.regs.rx1 = FifoRegs {
        rfr: 0x2 | 0x8 | 0x10,
        rir: 0x55 << 21,
        rdtr: 3,
        rdlr: 0x0033_2211,
        rdhr: 0,
    };
    let r = can.receive(&RxFifo::Fifo1);
    assert_eq!(r, Ok(CanFrame::DataFrame { id: Identifier::Base(0x55), data: vec![0x11, 0x22, 0x33] }));
    assert_eq!(can.regs.rx1.rfr, 0x2 | 0x20);
    assert_eq!(can.regs.rx0, CanRegisters::new().rx0);
}

#[test]
fn receive_invalid_length_leaves_fifo() {
    let mut can = controller();
    can.regs.rx0 = FifoRegs { rfr: 1, rir: 0, rdtr: 12, rdlr: 0, rdhr: 0 };
    let before = can.regs;
    assert_eq!(can.receive(&RxFifo::Fifo0), Err(CanError::InvalidFrame));
    assert_eq!(can.regs, before);
}

#[test]
fn loopback_transmit_then_receive() {
    let mut can = controller();
    can.regs.tsr = DONE0;
    let f = CanFrame::DataFrame {
        id: Identifier::Extended(0x1ABC_DEF0),
        data: vec![1, 2, 3, 4, 5, 6, 7, 8],
    };
    assert_eq!(can.transmit(&f), Ok(()));
    let m = can.regs.tx0;
    can.regs.rx0 = FifoRegs { rfr: 1, rir: m.tir & !0x1, rdtr: m.tdtr, rdlr: m.tdlr, rdhr: m.tdhr };
    assert_eq!(can.receive(&RxFifo::Fifo0), Ok(f));
}

#[test]
fn filter_number_past_bank_writes_nothing() {
    let can = controller();
    let mut bank = FilterBank::new();
    let mut config = CanFilterConfig::default();
    config.filter_number = 28;
    config.filter_id_high = 0xFFFF;
    assert_eq!(can.configure_filter(&mut bank, &config), Err(CanError::ConfigurationFailed));
    let fresh = FilterBank::new();
    assert_eq!(bank.fmr, fresh.fmr);
    assert_eq!(bank.fa1r, fresh.fa1r);
    assert_eq!(bank.fr1, fresh.fr1);
    assert_eq!(bank.fr2, fresh.fr2);
    config.filter_number = 255;
    assert_eq!(can.configure_filter(&mut bank, &config), Err(CanError::ConfigurationFailed));
}

#[test]
fn filter_32_bit_mask_layout() {
    let can = controller();
    let mut bank = FilterBank::new();
    let mut config = CanFilterConfig::default();
    config.filter_number = 3;
    config.scale = FilterScale::Fs32Bit;
    config.mode = FilterMode::IdMask;
    config.filter_id_high = 0x1234;
    config.filter_id_low = 0x5678;
    config.filter_mask_id_high = 0x0000;
    config.filter_mask_id_low = 0xFFFF;
    assert_eq!(can.configure_filter(&mut bank, &config), Ok(()));
    assert_eq!(bank.filter_words(3), Some((0x1234_5678, 0x0000_0000)));
    assert_eq!(bank.fs1r, 1 << 3);
    assert_eq!(bank.fm1r, 0);
    assert_eq!(bank.fa1r, 1 << 3);
    assert_eq!(bank.ffa1r, 0);
    assert_eq!(bank.fmr & 0x1, 0);
    assert_eq!(bank.fmr & 0x3f00, 14 << 8);
}

#[test]
fn filter_32_bit_mask_high_fills_both_halves() {
    let can = controller();
    let mut bank = FilterBank::new();
    let mut config = CanFilterConfig::default();
    config.filter_mask_id_high = 0xABCD;
    assert_eq!(can.configure_filter(&mut bank, &config), Ok(()));
    assert_eq!(bank.filter_words(0), Some((0, 0xABCD_ABCD)));
}

#[test]
fn filter_16_bit_list_to_fifo1_disabled() {
    let can = controller();
    let mut bank = FilterBank::new();
    bank.fa1r = 0xFFFF_FFFF;
    let config = CanFilterConfig {
        filter_number: 27,
        bank_number: 0x7F,
        fifo_assignment: RxFifo::Fifo1,
        mode: FilterMode::IdList,
        scale: FilterScale::Fs16Bit,
        filter_id_high: 0x25 << 5,
        filter_id_low: 0x23 << 5,
        filter_mask_id_high: 0x24 << 5,
        filter_mask_id_low: 0x22 << 5,
        enabled: false,
    };
    assert_eq!(can.configure_filter(&mut bank, &config), Ok(()));
    assert_eq!(
        bank.filter_words(27),
        Some((((0x22 << 5) << 16) | (0x23 << 5), ((0x24 << 5) << 16) | (0x25 << 5)))
    );
    assert_eq!(bank.fm1r, 1 << 27);
    assert_eq!(bank.ffa1r, 1 << 27);
    assert_eq!(bank.fs1r, 0);
    assert_eq!(bank.fa1r, 0xFFFF_FFFF & !(1 << 27));
    assert_eq!(bank.fmr, (0x2a1c_0e01 & !0x3f01) | (0x3f << 8));
    assert_eq!(bank.filter_words(28), None);
}

#[test]
fn default_filter_config() {
    let c = CanFilterConfig::default();
    assert_eq!(c.bank_number, 14);
    assert_eq!(c.filter_number, 0);
    assert!(c.enabled);
    assert_eq!(c.scale, FilterScale::Fs32Bit);
    assert_eq!(c.mode, FilterMode::IdMask);
    assert_eq!(c.fifo_assignment, RxFifo::Fifo0);
}
