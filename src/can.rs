//! The CAN controller: configuration, acceptance filters, mailbox
//! arbitration, transmit and receive over a model of the controller's
//! register block.
//!
//! `CanRegisters` holds the values of the controller's registers. The
//! driver reads and writes it as it would the hardware; what the hardware
//! does on its own between calls (emptying a mailbox, filling a FIFO) shows
//! in the status bits that the caller keeps there.
use vstd::prelude::*;
pub use crate::filter::{CanFilterConfig, FilterBank, FilterMode, FilterScale};
use crate::filter::{NUM_FILTERS, FINIT_BIT, CAN2SB_MASK, with_bit, first_word, second_word, fmr_after};
use crate::frame::{
    CanFrame, MailboxRegs, encode_frame, encode_spec, decode_frame, decode_spec,
    frame_result_view, TXRQ_BIT,
};
use crate::rcc::APB1;

verus! {

/// How many status polls `transmit` makes before it aborts a transmission.
pub const MAX_BLOCK_TICKS: u32 = 16 * 10;

/// What can go wrong in a CAN operation.
#[derive(Clone, Copy, Debug, PartialEq, Eq, Structural)]
pub enum CanError {
    /// No free transmit mailbox, or no pending frame in a receive FIFO.
    BufferExhausted,
    /// An invalid filter number or bit-timing value.
    ConfigurationFailed,
    /// A payload longer than eight bytes, on encode or decode.
    InvalidFrame,
    /// The transmission did not complete within the tick budget.
    Timeout,
}

/// Bus bit timing, each field in its register encoding (quanta minus one).
#[derive(Clone, Copy, Debug, PartialEq, Eq, Structural)]
pub struct CanBitTiming {
    /// Length of a time quantum, as a prescaler of the bus clock (0..1024).
    pub prescaler: u16,
    /// Resynchronisation jump width (0..4).
    pub sjw: u8,
    /// Time quanta in bit segment 1 (0..16).
    pub bs1: u8,
    /// Time quanta in bit segment 2 (0..8).
    pub bs2: u8,
}

impl CanBitTiming {
    /// Every field fits its register field.
    pub open spec fn fits(self) -> bool {
        &&& self.prescaler < 1024
        &&& self.sjw < 4
        &&& self.bs1 < 16
        &&& self.bs2 < 8
    }
}

/// Controller-wide behaviour and bit timing, applied at initialisation.
#[derive(Clone, Copy, Debug, PartialEq, Eq, Structural)]
pub struct CanConfig {
    /// Loop back mode (debug).
    pub loopback_mode: bool,
    /// Silent mode (debug).
    pub silent_mode: bool,
    /// Time triggered communication mode.
    pub ttcm: bool,
    /// Automatic bus-off management.
    pub abom: bool,
    /// Automatic wake-up mode.
    pub awum: bool,
    /// No automatic retransmission.
    pub nart: bool,
    /// Receive FIFO locked mode.
    pub rflm: bool,
    /// Transmit FIFO priority by request order.
    pub txfp: bool,
    pub bit_timing: CanBitTiming,
}

/// 500 kbit/s on a 54 MHz APB1 clock, automatic bus-off management on.
impl Default for CanConfig {
    fn default() -> (r: Self)
        ensures
            r == (CanConfig {
                loopback_mode: false,
                silent_mode: false,
                ttcm: false,
                abom: true,
                awum: false,
                nart: false,
                rflm: false,
                txfp: false,
                bit_timing: CanBitTiming { prescaler: 5, sjw: 0, bs1: 14, bs2: 1 },
            }),
    {
        CanConfig {
            loopback_mode: false,
            silent_mode: false,
            ttcm: false,
            abom: true,
            awum: false,
            nart: false,
            rflm: false,
            txfp: false,
            bit_timing: CanBitTiming { prescaler: 5, sjw: 0, bs1: 14, bs2: 1 },
        }
    }
}

/// One of the three transmit mailboxes.
#[derive(Clone, Copy, Debug, PartialEq, Eq, Structural)]
pub enum TxMailbox {
    Mailbox0,
    Mailbox1,
    Mailbox2,
}

/// One of the two receive FIFOs.
#[derive(Clone, Copy, Debug, PartialEq, Eq, Structural)]
pub enum RxFifo {
    Fifo0,
    Fifo1,
}

impl TxMailbox {
    /// The mailbox's transmit-mailbox-empty bit (TMEx) of TSR.
    pub open spec fn empty_bit(self) -> u32 {
        match self {
            TxMailbox::Mailbox0 => 0x0400_0000,
            TxMailbox::Mailbox1 => 0x0800_0000,
            TxMailbox::Mailbox2 => 0x1000_0000,
        }
    }

    /// The mailbox's request-completed, transmit-ok and mailbox-empty bits
    /// (RQCPx, TXOKx, TMEx) of TSR.
    pub open spec fn done_mask(self) -> u32 {
        match self {
            TxMailbox::Mailbox0 => 0x0400_0003,
            TxMailbox::Mailbox1 => 0x0800_0300,
            TxMailbox::Mailbox2 => 0x1003_0000,
        }
    }

    /// The mailbox's abort-request bit (ABRQx) of TSR.
    pub open spec fn abort_bit(self) -> u32 {
        match self {
            TxMailbox::Mailbox0 => 0x80,
            TxMailbox::Mailbox1 => 0x8000,
            TxMailbox::Mailbox2 => 0x80_0000,
        }
    }

    fn done_mask_exec(&self) -> (r: u32)
        ensures
            r == self.done_mask(),
    {
        match self {
            TxMailbox::Mailbox0 => 0x0400_0003,
            TxMailbox::Mailbox1 => 0x0800_0300,
            TxMailbox::Mailbox2 => 0x1003_0000,
        }
    }

    /// The mailbox's abort-request bit of TSR.
    pub fn abort_request_bit(&self) -> (r: u32)
        ensures
            r == self.abort_bit(),
    {
        match self {
            TxMailbox::Mailbox0 => 0x80,
            TxMailbox::Mailbox1 => 0x8000,
            TxMailbox::Mailbox2 => 0x80_0000,
        }
    }
}

/// The first mailbox, in the order 0, 1, 2, whose empty bit is set in
/// `tsr`; `None` when all three are in use.
pub open spec fn select_spec(tsr: u32) -> Option<TxMailbox> {
    if tsr & TxMailbox::Mailbox0.empty_bit() != 0 {
        Some(TxMailbox::Mailbox0)
    } else if tsr & TxMailbox::Mailbox1.empty_bit() != 0 {
        Some(TxMailbox::Mailbox1)
    } else if tsr & TxMailbox::Mailbox2.empty_bit() != 0 {
        Some(TxMailbox::Mailbox2)
    } else {
        None
    }
}

/// Picks the transmit mailbox to load: the first empty one in priority
/// order, or `None` when all three are in use.
pub fn select_mailbox(tsr: u32) -> (r: Option<TxMailbox>)
    ensures
        r == select_spec(tsr),
{
    if tsr & 0x0400_0000 != 0 {
        Some(TxMailbox::Mailbox0)
    } else if tsr & 0x0800_0000 != 0 {
        Some(TxMailbox::Mailbox1)
    } else if tsr & 0x1000_0000 != 0 {
        Some(TxMailbox::Mailbox2)
    } else {
        None
    }
}

/// The transmission from `mb` has completed: request completed,
/// transmitted without error, and the mailbox empty again.
pub open spec fn tx_done(tsr: u32, mb: TxMailbox) -> bool {
    tsr & mb.done_mask() == mb.done_mask()
}

/// Reads the completion status of a mailbox from TSR.
pub fn transmission_complete(tsr: u32, mb: TxMailbox) -> (r: bool)
    ensures
        r == tx_done(tsr, mb),
{
    let mask: u32 = mb.done_mask_exec();
    tsr & mask == mask
}

/// The outcome of one completion poll of a pending transmission.
#[derive(Clone, Copy, Debug, PartialEq, Eq, Structural)]
pub enum TxPoll {
    /// The frame has been sent.
    Complete,
    /// Not yet; the number of polls spent so far.
    Pending(u32),
    /// The budget is spent: abort the transmission and report a timeout.
    Abort,
}

/// One poll of a transmission after `ticks` unsuccessful ones.
pub open spec fn poll_spec(ticks: u32, tsr: u32, mb: TxMailbox) -> TxPoll {
    if tx_done(tsr, mb) {
        TxPoll::Complete
    } else if ticks + 1 >= MAX_BLOCK_TICKS {
        TxPoll::Abort
    } else {
        TxPoll::Pending((ticks + 1) as u32)
    }
}

/// Decides on one status read of a pending transmission from `mb`, after
/// `ticks` unsuccessful polls: done, keep waiting, or abort.
pub fn poll_transmit(ticks: u32, tsr: u32, mb: TxMailbox) -> (r: TxPoll)
    requires
        ticks < MAX_BLOCK_TICKS,
    ensures
        r == poll_spec(ticks, tsr, mb),
{
    if transmission_complete(tsr, mb) {
        TxPoll::Complete
    } else if ticks + 1 >= MAX_BLOCK_TICKS {
        TxPoll::Abort
    } else {
        TxPoll::Pending(ticks + 1)
    }
}

/// The state after `n` polls of a transmission whose status stays `tsr`,
/// starting from no poll at all.
pub open spec fn polls_after(n: nat, tsr: u32, mb: TxMailbox) -> TxPoll
    decreases n,
{
    if n == 0 {
        TxPoll::Pending(0)
    } else {
        match polls_after((n - 1) as nat, tsr, mb) {
            TxPoll::Pending(t) => poll_spec(t, tsr, mb),
            other => other,
        }
    }
}

/// A mailbox that never reports completion is polled exactly
/// `MAX_BLOCK_TICKS` times: every earlier poll says to keep waiting, and
/// the poll that spends the budget, and no other, says to abort.
pub proof fn lemma_timeout_after_budget(tsr: u32, mb: TxMailbox, n: nat)
    requires
        !tx_done(tsr, mb),
        1 <= n <= MAX_BLOCK_TICKS,
    ensures
        n < MAX_BLOCK_TICKS ==> polls_after(n, tsr, mb) == TxPoll::Pending(n as u32),
        n == MAX_BLOCK_TICKS ==> polls_after(n, tsr, mb) == TxPoll::Abort,
    decreases n,
{
    assert(polls_after(0, tsr, mb) == TxPoll::Pending(0));
    if n > 1 {
        lemma_timeout_after_budget(tsr, mb, (n - 1) as nat);
    }
}

/// The five registers of one receive FIFO.
#[derive(Clone, Copy, Debug, PartialEq, Eq, Structural)]
pub struct FifoRegs {
    /// FIFO status register (RFxR): pending count, full, overrun, release.
    pub rfr: u32,
    /// Identifier register of the frame at the output (RIxR).
    pub rir: u32,
    /// Length and time-stamp register (RDTxR).
    pub rdtr: u32,
    /// Low data register, bytes 0..3 (RDLxR).
    pub rdlr: u32,
    /// High data register, bytes 4..7 (RDHxR).
    pub rdhr: u32,
}

/// Pending-message count field (FMPx) of a FIFO status register.
pub const FMP_MASK: u32 = 0x3;

/// Full flag (FULLx) of a FIFO status register.
pub const FULL_BIT: u32 = 0x8;

/// Overrun flag (FOVRx) of a FIFO status register.
pub const FOVR_BIT: u32 = 0x10;

/// Release-output bit (RFOMx) of a FIFO status register.
pub const RFOM_BIT: u32 = 0x20;

/// The FIFO status register written to release the output frame: release
/// set, overrun and full cleared.
pub open spec fn released(rfr: u32) -> u32 {
    (rfr | RFOM_BIT) & !(FOVR_BIT | FULL_BIT)
}

/// The controller's register block.
#[derive(Clone, Copy, Debug, PartialEq, Eq, Structural)]
pub struct CanRegisters {
    /// Master control register (MCR).
    pub mcr: u32,
    /// Master status register (MSR).
    pub msr: u32,
    /// Transmit status register (TSR).
    pub tsr: u32,
    /// Bit timing register (BTR).
    pub btr: u32,
    pub tx0: MailboxRegs,
    pub tx1: MailboxRegs,
    pub tx2: MailboxRegs,
    pub rx0: FifoRegs,
    pub rx1: FifoRegs,
}

impl CanRegisters {
    /// The registers of a transmit mailbox.
    pub open spec fn mailbox(self, mb: TxMailbox) -> MailboxRegs {
        match mb {
            TxMailbox::Mailbox0 => self.tx0,
            TxMailbox::Mailbox1 => self.tx1,
            TxMailbox::Mailbox2 => self.tx2,
        }
    }

    /// The block with one mailbox's registers replaced.
    pub open spec fn with_mailbox(self, mb: TxMailbox, m: MailboxRegs) -> CanRegisters {
        match mb {
            TxMailbox::Mailbox0 => CanRegisters { tx0: m, ..self },
            TxMailbox::Mailbox1 => CanRegisters { tx1: m, ..self },
            TxMailbox::Mailbox2 => CanRegisters { tx2: m, ..self },
        }
    }

    /// The registers of a receive FIFO.
    pub open spec fn fifo(self, f: RxFifo) -> FifoRegs {
        match f {
            RxFifo::Fifo0 => self.rx0,
            RxFifo::Fifo1 => self.rx1,
        }
    }

    /// The block with one FIFO's registers replaced.
    pub open spec fn with_fifo(self, f: RxFifo, r: FifoRegs) -> CanRegisters {
        match f {
            RxFifo::Fifo0 => CanRegisters { rx0: r, ..self },
            RxFifo::Fifo1 => CanRegisters { rx1: r, ..self },
        }
    }

    /// The register block as it comes out of reset: sleep mode, all three
    /// mailboxes empty, both FIFOs empty.
    pub fn new() -> (r: Self)
        ensures
            r.mcr == 0x0001_0002,
            r.msr == 0x0c02,
            r.tsr == 0x1c00_0000,
            r.btr == 0,
            r.tx0 == (MailboxRegs { tir: 0, tdtr: 0, tdlr: 0, tdhr: 0 }),
            r.tx1 == r.tx0 && r.tx2 == r.tx0,
            r.rx0 == (FifoRegs { rfr: 0, rir: 0, rdtr: 0, rdlr: 0, rdhr: 0 }),
            r.rx1 == r.rx0,
    {
        let m = MailboxRegs { tir: 0, tdtr: 0, tdlr: 0, tdhr: 0 };
        let f = FifoRegs { rfr: 0, rir: 0, rdtr: 0, rdlr: 0, rdhr: 0 };
        CanRegisters {
            mcr: 0x0001_0002,
            msr: 0x0c02,
            tsr: 0x1c00_0000,
            btr: 0,
            tx0: m,
            tx1: m,
            tx2: m,
            rx0: f,
            rx1: f,
        }
    }

    fn set_mailbox(&mut self, mb: TxMailbox, m: MailboxRegs)
        ensures
            *final(self) == old(self).with_mailbox(mb, m),
    {
        match mb {
            TxMailbox::Mailbox0 => self.tx0 = m,
            TxMailbox::Mailbox1 => self.tx1 = m,
            TxMailbox::Mailbox2 => self.tx2 = m,
        }
    }

    /// The registers of a receive FIFO.
    pub fn fifo_regs(&self, f: RxFifo) -> (r: FifoRegs)
        ensures
            r == self.fifo(f),
    {
        match f {
            RxFifo::Fifo0 => self.rx0,
            RxFifo::Fifo1 => self.rx1,
        }
    }

    fn set_fifo(&mut self, f: RxFifo, r: FifoRegs)
        ensures
            *final(self) == old(self).with_fifo(f, r),
    {
        match f {
            RxFifo::Fifo0 => self.rx0 = r,
            RxFifo::Fifo1 => self.rx1 = r,
        }
    }
}

/// Wake-up interrupt flag (WKUI) of the master status register.
pub const WKUI_BIT: u32 = 0x8;

/// Clock-enable and reset bit of the first controller on APB1.
pub const CAN1_APB1_BIT: u32 = 0x0200_0000;

/// Clock-enable and reset bit of the second controller on APB1.
pub const CAN2_APB1_BIT: u32 = 0x0400_0000;

/// The master control register after initialisation: the configured
/// mode bits (TTCM, ABOM, AWUM, NART, RFLM, TXFP) with initialisation,
/// sleep, reset and debug freeze all clear.
pub open spec fn mcr_spec(c: CanConfig) -> u32 {
    (if c.ttcm { 0x80u32 } else { 0 }) | (if c.abom { 0x40u32 } else { 0 }) | (if c.awum {
        0x20u32
    } else {
        0
    }) | (if c.nart { 0x10u32 } else { 0 }) | (if c.rflm { 0x08u32 } else { 0 }) | (if c.txfp {
        0x04u32
    } else {
        0
    })
}

/// The bit timing register for a configuration: silent and loop back
/// modes in bits 31 and 30, SJW in 24..25, TS2 in 20..22, TS1 in 16..19,
/// the prescaler in 0..9.
pub open spec fn btr_spec(c: CanConfig) -> u32 {
    (if c.silent_mode { 0x8000_0000u32 } else { 0 }) | (if c.loopback_mode {
        0x4000_0000u32
    } else {
        0
    }) | ((c.bit_timing.sjw as u32) << 24u32) | ((c.bit_timing.bs2 as u32) << 20u32) | ((
    c.bit_timing.bs1 as u32) << 16u32) | (c.bit_timing.prescaler as u32)
}

/// The register block once initialisation has applied a configuration.
pub open spec fn initialized(regs: CanRegisters, c: CanConfig) -> CanRegisters {
    CanRegisters { mcr: mcr_spec(c), msr: regs.msr & !WKUI_BIT, btr: btr_spec(c), ..regs }
}

fn mcr_value(c: &CanConfig) -> (r: u32)
    ensures
        r == mcr_spec(*c),
{
    (if c.ttcm { 0x80u32 } else { 0 }) | (if c.abom { 0x40u32 } else { 0 }) | (if c.awum {
        0x20u32
    } else {
        0
    }) | (if c.nart { 0x10u32 } else { 0 }) | (if c.rflm { 0x08u32 } else { 0 }) | (if c.txfp {
        0x04u32
    } else {
        0
    })
}

fn btr_value(c: &CanConfig) -> (r: u32)
    ensures
        r == btr_spec(*c),
{
    (if c.silent_mode { 0x8000_0000u32 } else { 0 }) | (if c.loopback_mode {
        0x4000_0000u32
    } else {
        0
    }) | ((c.bit_timing.sjw as u32) << 24u32) | ((c.bit_timing.bs2 as u32) << 20u32) | ((
    c.bit_timing.bs1 as u32) << 16u32) | (c.bit_timing.prescaler as u32)
}

/// Marker for the first (master) controller.
pub struct Can1;

/// Marker for the second controller, whose filters live in the first's
/// register block.
pub struct Can2;

/// A pin that can carry the transmit line of controller `CAN`. The
/// library's own impls are the complete set of valid pairings.
pub trait TxPin<CAN> {}

/// A pin that can carry the receive line of controller `CAN`. The
/// library's own impls are the complete set of valid pairings.
pub trait RxPin<CAN> {}

/// Pin PD0 in alternate function 9.
pub struct Pd0Af9;

/// Pin PD1 in alternate function 9.
pub struct Pd1Af9;

/// Pin PB12 in alternate function 9.
pub struct Pb12Af9;

/// Pin PB13 in alternate function 9.
pub struct Pb13Af9;

impl TxPin<Can1> for Pd1Af9 {}

impl TxPin<Can2> for Pb13Af9 {}

impl RxPin<Can1> for Pd0Af9 {}

impl RxPin<Can2> for Pb12Af9 {}

/// An initialised CAN controller, owning its pins and its register block.
pub struct Can<CAN, PINS> {
    /// Which controller this is.
    pub can: CAN,
    /// The transmit and receive pins, held for the controller's lifetime.
    pub pins: PINS,
    /// The controller's registers.
    pub regs: CanRegisters,
}

fn check_and_apply(regs: CanRegisters, apb: &mut APB1, bit: u32, settings: &CanConfig) -> (r: Result<
    CanRegisters,
    CanError,
>)
    ensures
        settings.bit_timing.fits() ==> r == Ok::<CanRegisters, CanError>(
            initialized(regs, *settings),
        ) && final(apb).enr == old(apb).enr | bit && final(apb).rstr == old(apb).rstr & !bit,
        !settings.bit_timing.fits() ==> r == Err::<CanRegisters, CanError>(
            CanError::ConfigurationFailed,
        ) && *final(apb) == *old(apb),
{
    let t = settings.bit_timing;
    if t.prescaler >= 1024 || t.sjw >= 4 || t.bs1 >= 16 || t.bs2 >= 8 {
        return Err(CanError::ConfigurationFailed);
    }
    apb.enable_and_reset(bit);
    let mut regs = regs;
    regs.mcr = mcr_value(settings);
    regs.msr = regs.msr & !WKUI_BIT;
    regs.btr = btr_value(settings);
    Ok(regs)
}

impl<TX, RX> Can<Can1, (TX, RX)> {
    /// Initialises the first controller: enables and resets its clock on
    /// APB1, then applies the configuration to its control and timing
    /// registers. A bit timing field too wide for its register gives
    /// `ConfigurationFailed`, with APB1 untouched.
    pub fn can1(can: Can1, pins: (TX, RX), regs: CanRegisters, apb: &mut APB1, settings: &CanConfig) -> (r: Result<Self, CanError>)
        where
            TX: TxPin<Can1>,
            RX: RxPin<Can1>,
        ensures
            settings.bit_timing.fits() ==> (r matches Ok(c) && c.regs == initialized(regs, *settings)
                && final(apb).enr == old(apb).enr | CAN1_APB1_BIT && final(apb).rstr == old(
                apb,
            ).rstr & !CAN1_APB1_BIT),
            !settings.bit_timing.fits() ==> (r matches Err(e) && e == CanError::ConfigurationFailed
                && *final(apb) == *old(apb)),
    {
        match check_and_apply(regs, apb, CAN1_APB1_BIT, settings) {
            Ok(regs) => Ok(Can { can, pins, regs }),
            Err(e) => Err(e),
        }
    }
}

impl<TX, RX> Can<Can2, (TX, RX)> {
    /// Initialises the second controller: enables and resets its clock on
    /// APB1, then applies the configuration to its control and timing
    /// registers. A bit timing field too wide for its register gives
    /// `ConfigurationFailed`, with APB1 untouched.
    pub fn can2(can: Can2, pins: (TX, RX), regs: CanRegisters, apb: &mut APB1, settings: &CanConfig) -> (r: Result<Self, CanError>)
        where
            TX: TxPin<Can2>,
            RX: RxPin<Can2>,
        ensures
            settings.bit_timing.fits() ==> (r matches Ok(c) && c.regs == initialized(regs, *settings)
                && final(apb).enr == old(apb).enr | CAN2_APB1_BIT && final(apb).rstr == old(
                apb,
            ).rstr & !CAN2_APB1_BIT),
            !settings.bit_timing.fits() ==> (r matches Err(e) && e == CanError::ConfigurationFailed
                && *final(apb) == *old(apb)),
    {
        match check_and_apply(regs, apb, CAN2_APB1_BIT, settings) {
            Ok(regs) => Ok(Can { can, pins, regs }),
            Err(e) => Err(e),
        }
    }
}

impl<CAN, PINS> Can<CAN, PINS> {
    /// Programs one filter of the shared bank: its scale and words, its
    /// mode, its FIFO, and its activation, and sets the start of the
    /// second controller's filters to `bank_number` (its low six bits).
    /// The bank leaves initialisation mode on return. A filter number past
    /// the bank gives `ConfigurationFailed` and writes no register.
    pub fn configure_filter(&self, bank: &mut FilterBank, config: &CanFilterConfig) -> (r: Result<(), CanError>)
        ensures
            config.filter_number >= NUM_FILTERS ==> r == Err::<(), CanError>(
                CanError::ConfigurationFailed,
            ) && *final(bank) == *old(bank),
            config.filter_number < NUM_FILTERS ==> {
                let n = config.filter_number;
                &&& r == Ok::<(), CanError>(())
                &&& final(bank).fmr == fmr_after(old(bank).fmr, config.bank_number)
                &&& final(bank).fm1r == with_bit(old(bank).fm1r, n, config.mode == FilterMode::IdList)
                &&& final(bank).fs1r == with_bit(old(bank).fs1r, n, config.scale == FilterScale::Fs32Bit)
                &&& final(bank).ffa1r == with_bit(old(bank).ffa1r, n, config.fifo_assignment == RxFifo::Fifo1)
                &&& final(bank).fa1r == with_bit(old(bank).fa1r, n, config.enabled)
                &&& final(bank).fr1@ == old(bank).fr1@.update(n as int, first_word(*config))
                &&& final(bank).fr2@ == old(bank).fr2@.update(n as int, second_word(*config))
            },
    {
        if config.filter_number >= NUM_FILTERS {
            return Err(CanError::ConfigurationFailed);
        }
        let n: u8 = config.filter_number;
        let i: usize = n as usize;
        let bit: u32 = 1u32 << (n as u32);
        // enter initialisation mode and select the start of the slave bank
        bank.fmr = bank.fmr | FINIT_BIT;
        bank.fmr = (bank.fmr & !CAN2SB_MASK) | (((config.bank_number as u32) & 0x3f) << 8u32);
        // deactivate the filter while it changes
        bank.fa1r = bank.fa1r & !bit;
        match config.scale {
            FilterScale::Fs16Bit => {
                bank.fs1r = bank.fs1r & !bit;
                bank.fr1[i] = (config.filter_mask_id_low << 16u32) | config.filter_id_low;
                bank.fr2[i] = (config.filter_mask_id_high << 16u32) | config.filter_id_high;
            },
            FilterScale::Fs32Bit => {
                bank.fs1r = bank.fs1r | bit;
                bank.fr1[i] = (config.filter_id_high << 16u32) | config.filter_id_low;
                bank.fr2[i] = (config.filter_mask_id_high << 16u32) | config.filter_mask_id_high;
            },
        }
        match config.mode {
            FilterMode::IdMask => bank.fm1r = bank.fm1r & !bit,
            FilterMode::IdList => bank.fm1r = bank.fm1r | bit,
        }
        match config.fifo_assignment {
            RxFifo::Fifo0 => bank.ffa1r = bank.ffa1r & !bit,
            RxFifo::Fifo1 => bank.ffa1r = bank.ffa1r | bit,
        }
        if config.enabled {
            bank.fa1r = bank.fa1r | bit;
        }
        // leave initialisation mode
        bank.fmr = bank.fmr & !FINIT_BIT;
        proof {
            let f0: u32 = old(bank).fmr;
            let a0: u32 = old(bank).fa1r;
            let sb: u32 = config.bank_number as u32;
            assert((((f0 | 1) & !0x3f00u32) | ((sb & 0x3f) << 8u32)) & !1u32 == (f0 & !(1u32
                | 0x3f00u32)) | ((sb & 0x3f) << 8u32)) by (bit_vector);
            assert((a0 & !bit) | bit == a0 | bit) by (bit_vector);
        }
        Ok(())
    }

    /// Sends a frame through the first empty mailbox (0, then 1, then 2).
    ///
    /// With all three mailboxes in use it gives `BufferExhausted`, and with
    /// a payload longer than eight bytes `InvalidFrame`; both write no
    /// register. Otherwise it loads the frame into the mailbox, requests
    /// transmission, and polls the mailbox's completion status at most
    /// `MAX_BLOCK_TICKS` times: on completion it returns `Ok`, else it sets
    /// the mailbox's abort-request bit and gives `Timeout`.
    pub fn transmit(&mut self, frame: &CanFrame) -> (r: Result<(), CanError>)
        ensures
            ({
                let regs = old(self).regs;
                match select_spec(regs.tsr) {
                    None => r == Err::<(), CanError>(CanError::BufferExhausted) && final(self).regs
                        == regs,
                    Some(mb) => match encode_spec(frame@) {
                        Err(e) => r == Err::<(), CanError>(e) && final(self).regs == regs,
                        Ok(m) => {
                            let loaded = regs.with_mailbox(
                                mb,
                                MailboxRegs { tir: m.tir | TXRQ_BIT, ..m },
                            );
                            if tx_done(regs.tsr, mb) {
                                r == Ok::<(), CanError>(()) && final(self).regs == loaded
                            } else {
                                r == Err::<(), CanError>(CanError::Timeout) && final(self).regs
                                    == CanRegisters { tsr: regs.tsr | mb.abort_bit(), ..loaded }
                            }
                        },
                    },
                }
            }),
    {
        let mb = match select_mailbox(self.regs.tsr) {
            Some(mb) => mb,
            None => return Err(CanError::BufferExhausted),
        };
        let m = match encode_frame(frame) {
            Ok(m) => m,
            Err(e) => return Err(e),
        };
        // load the mailbox with the transmit request set
        self.regs.set_mailbox(mb, MailboxRegs { tir: m.tir | TXRQ_BIT, ..m });
        let ghost loaded = self.regs;
        let mut ticks: u32 = 0;
        loop
            invariant
                ticks < MAX_BLOCK_TICKS,
                select_spec(old(self).regs.tsr) == Some(mb),
                encode_spec(frame@) == Ok::<MailboxRegs, CanError>(m),
                loaded == old(self).regs.with_mailbox(mb, MailboxRegs { tir: m.tir | TXRQ_BIT, ..m }),
                self.regs == loaded,
                polls_after(ticks as nat, loaded.tsr, mb) == TxPoll::Pending(ticks),
            decreases MAX_BLOCK_TICKS - ticks,
        {
            match poll_transmit(ticks, self.regs.tsr, mb) {
                TxPoll::Complete => return Ok(()),
                TxPoll::Pending(t) => {
                    ticks = t;
                },
                TxPoll::Abort => {
                    self.regs.tsr = self.regs.tsr | mb.abort_request_bit();
                    return Err(CanError::Timeout);
                },
            }
        }
    }

    /// Takes the frame at the output of a receive FIFO. With no frame
    /// pending it gives `BufferExhausted`, and for a data frame whose DLC
    /// exceeds 8 `InvalidFrame`; both write no register. Otherwise it
    /// releases the FIFO output, clearing the overrun and full flags, and
    /// returns the decoded frame.
    pub fn receive(&mut self, fifo: &RxFifo) -> (r: Result<CanFrame, CanError>)
        ensures
            ({
                let f = old(self).regs.fifo(*fifo);
                if f.rfr & FMP_MASK == 0 {
                    r == Err::<CanFrame, CanError>(CanError::BufferExhausted) && final(self).regs
                        == old(self).regs
                } else {
                    &&& frame_result_view(r) == decode_spec(f.rir, f.rdtr, f.rdlr, f.rdhr)
                    &&& r is Err ==> final(self).regs == old(self).regs
                    &&& r is Ok ==> final(self).regs == old(self).regs.with_fifo(
                        *fifo,
                        FifoRegs { rfr: released(f.rfr), ..f },
                    )
                }
            }),
    {
        let f = self.regs.fifo_regs(*fifo);
        if f.rfr & FMP_MASK == 0 {
            return Err(CanError::BufferExhausted);
        }
        let frame = match decode_frame(f.rir, f.rdtr, f.rdlr, f.rdhr) {
            Ok(frame) => frame,
            Err(e) => return Err(e),
        };
        let rfr: u32 = (f.rfr | RFOM_BIT) & !(FOVR_BIT | FULL_BIT);
        self.regs.set_fifo(*fifo, FifoRegs { rfr, ..f });
        Ok(frame)
    }
}

} // verus!
