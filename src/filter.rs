//! The acceptance filter bank: 28 filters shared by both controllers,
//! each gating which identifiers reach which receive FIFO.
//!
//! The bank is one piece of hardware state reached through the first
//! controller's register block. Holding it in a `FilterBank` value of its
//! own, passed by `&mut` to whichever controller programs it, makes that
//! sharing visible and serialises the updates.
use vstd::prelude::*;
use crate::can::RxFifo;

verus! {

/// Number of filters in the bank.
pub const NUM_FILTERS: u8 = 28;

/// Filter-initialisation-mode bit of the filter master register.
pub const FINIT_BIT: u32 = 0x1;

/// Start-of-slave-bank field (CAN2SB) of the filter master register.
pub const CAN2SB_MASK: u32 = 0x3f00;

/// How a filter's two words are read.
#[derive(Clone, Copy, Debug, PartialEq, Eq, Structural)]
pub enum FilterMode {
    /// Identifier and mask.
    IdMask,
    /// A list of exact identifiers.
    IdList,
}

/// Whether a filter holds two 16-bit or one 32-bit entry per word.
#[derive(Clone, Copy, Debug, PartialEq, Eq, Structural)]
pub enum FilterScale {
    Fs16Bit,
    Fs32Bit,
}

/// One entry of the filter bank.
///
/// For 16-bit list filters the identifiers are given shifted left by 5,
/// as the hardware holds them.
#[derive(Clone, Copy, Debug, PartialEq, Eq, Structural)]
pub struct CanFilterConfig {
    /// Which filter (0..28) to program.
    pub filter_number: u8,
    /// First filter that belongs to the second controller (CAN2SB).
    pub bank_number: u8,
    pub fifo_assignment: RxFifo,
    pub mode: FilterMode,
    pub scale: FilterScale,
    pub filter_id_high: u32,
    pub filter_id_low: u32,
    pub filter_mask_id_high: u32,
    pub filter_mask_id_low: u32,
    pub enabled: bool,
}

/// The filter that lets every frame through to FIFO 0.
impl Default for CanFilterConfig {
    fn default() -> (r: Self)
        ensures
            r == (CanFilterConfig {
                filter_number: 0,
                bank_number: 14,
                fifo_assignment: RxFifo::Fifo0,
                mode: FilterMode::IdMask,
                scale: FilterScale::Fs32Bit,
                filter_id_high: 0,
                filter_id_low: 0,
                filter_mask_id_high: 0,
                filter_mask_id_low: 0,
                enabled: true,
            }),
    {
        CanFilterConfig {
            filter_number: 0,
            bank_number: 14,
            fifo_assignment: RxFifo::Fifo0,
            mode: FilterMode::IdMask,
            scale: FilterScale::Fs32Bit,
            filter_id_high: 0,
            filter_id_low: 0,
            filter_mask_id_high: 0,
            filter_mask_id_low: 0,
            enabled: true,
        }
    }
}

/// The filter bank registers: master register, the four one-bit-per-filter
/// registers, and each filter's pair of words FiR1 / FiR2.
#[derive(Clone, Copy, Debug)]
pub struct FilterBank {
    /// Filter master register (FMR).
    pub fmr: u32,
    /// Mode register: bit set for list mode (FM1R).
    pub fm1r: u32,
    /// Scale register: bit set for 32-bit scale (FS1R).
    pub fs1r: u32,
    /// FIFO assignment register: bit set for FIFO 1 (FFA1R).
    pub ffa1r: u32,
    /// Activation register: bit set for an active filter (FA1R).
    pub fa1r: u32,
    /// First word of each filter (FiR1).
    pub fr1: [u32; 28],
    /// Second word of each filter (FiR2).
    pub fr2: [u32; 28],
}

/// The bit of filter `n` in a one-bit-per-filter register.
pub open spec fn filter_bit(n: u8) -> u32 {
    1u32 << (n as u32)
}

/// `w` with bit `n` set or cleared.
pub open spec fn with_bit(w: u32, n: u8, on: bool) -> u32 {
    if on {
        w | filter_bit(n)
    } else {
        w & !filter_bit(n)
    }
}

/// The first filter word of a configuration: in 32-bit scale
/// `(id_high << 16) | id_low`; in 16-bit scale the first identifier and
/// the first mask (or second identifier) side by side.
pub open spec fn first_word(c: CanFilterConfig) -> u32 {
    match c.scale {
        FilterScale::Fs16Bit => (c.filter_mask_id_low << 16u32) | c.filter_id_low,
        FilterScale::Fs32Bit => (c.filter_id_high << 16u32) | c.filter_id_low,
    }
}

/// The second filter word of a configuration: in 32-bit scale
/// `(mask_high << 16) | mask_high`; in 16-bit scale the second identifier
/// and the second mask (or fourth identifier) side by side.
pub open spec fn second_word(c: CanFilterConfig) -> u32 {
    match c.scale {
        FilterScale::Fs16Bit => (c.filter_mask_id_high << 16u32) | c.filter_id_high,
        FilterScale::Fs32Bit => (c.filter_mask_id_high << 16u32) | c.filter_mask_id_high,
    }
}

/// The filter master register after programming: CAN2SB holds the low six
/// bits of `bank_number` and initialisation mode has been left.
pub open spec fn fmr_after(fmr: u32, bank_number: u8) -> u32 {
    (fmr & !(FINIT_BIT | CAN2SB_MASK)) | (((bank_number as u32) & 0x3f) << 8u32)
}

impl FilterBank {
    /// The bank as it comes out of reset: every filter inactive, in mask
    /// mode, 16-bit scale, FIFO 0, and initialisation mode entered.
    pub fn new() -> (r: Self)
        ensures
            r.fmr == 0x2a1c_0e01,
            r.fm1r == 0,
            r.fs1r == 0,
            r.ffa1r == 0,
            r.fa1r == 0,
            forall|i: int| 0 <= i < NUM_FILTERS ==> r.fr1[i] == 0 && r.fr2[i] == 0,
    {
        FilterBank {
            fmr: 0x2a1c_0e01,
            fm1r: 0,
            fs1r: 0,
            ffa1r: 0,
            fa1r: 0,
            fr1: [0u32; 28],
            fr2: [0u32; 28],
        }
    }

    /// The two words of filter `n`, or `None` past the end of the bank.
    pub fn filter_words(&self, n: u8) -> (r: Option<(u32, u32)>)
        ensures
            n < NUM_FILTERS ==> r == Some((self.fr1[n as int], self.fr2[n as int])),
            n >= NUM_FILTERS ==> r is None,
    {
        if n < NUM_FILTERS {
            let i: usize = n as usize;
            Some((self.fr1[i], self.fr2[i]))
        } else {
            None
        }
    }
}

} // verus!
