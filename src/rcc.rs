//! Reset and clock control: the peripheral clock-enable and reset
//! registers of the buses, and the frozen clock frequencies.
use vstd::prelude::*;
use crate::time::Hertz;

verus! {

/// Advanced Peripheral Bus 1 (APB1): its clock-enable register (APB1ENR)
/// and its reset register (APB1RSTR), one bit per peripheral.
#[derive(Clone, Copy, Debug, PartialEq, Eq, Structural)]
pub struct APB1 {
    pub enr: u32,
    pub rstr: u32,
}

impl APB1 {
    /// The bus registers as they come out of reset.
    pub fn new() -> (r: Self)
        ensures
            r.enr == 0 && r.rstr == 0,
    {
        APB1 { enr: 0, rstr: 0 }
    }

    /// Enables the clock of the peripheral with bit `bit`, then pulses its
    /// reset line: the enable bit is set and the reset bit ends clear.
    pub fn enable_and_reset(&mut self, bit: u32)
        ensures
            final(self).enr == old(self).enr | bit,
            final(self).rstr == old(self).rstr & !bit,
    {
        self.enr = self.enr | bit;
        let before: u32 = self.rstr;
        self.rstr = self.rstr | bit;
        self.rstr = self.rstr & !bit;
        assert((before | bit) & !bit == before & !bit) by (bit_vector);
    }
}

/// HSI oscillator frequency: 16 MHz.
pub const HSI: u32 = 16_000_000;

/// AMBA High-performance Bus 1 (AHB1): clock-enable and reset registers.
#[derive(Clone, Copy, Debug, PartialEq, Eq, Structural)]
pub struct AHB1 {
    pub enr: u32,
    pub rstr: u32,
}

/// AMBA High-performance Bus 2 (AHB2): clock-enable and reset registers.
#[derive(Clone, Copy, Debug, PartialEq, Eq, Structural)]
pub struct AHB2 {
    pub enr: u32,
    pub rstr: u32,
}

/// AMBA High-performance Bus 3 (AHB3): clock-enable and reset registers.
#[derive(Clone, Copy, Debug, PartialEq, Eq, Structural)]
pub struct AHB3 {
    pub enr: u32,
    pub rstr: u32,
}

/// Advanced Peripheral Bus 2 (APB2): clock-enable and reset registers.
#[derive(Clone, Copy, Debug, PartialEq, Eq, Structural)]
pub struct APB2 {
    pub enr: u32,
    pub rstr: u32,
}

impl APB2 {
    /// Enables the clock of the peripheral with bit `bit`, then pulses its
    /// reset line: the enable bit is set and the reset bit ends clear.
    pub fn enable_and_reset(&mut self, bit: u32)
        ensures
            final(self).enr == old(self).enr | bit,
            final(self).rstr == old(self).rstr & !bit,
    {
        self.enr = self.enr | bit;
        let before: u32 = self.rstr;
        self.rstr = self.rstr | bit;
        self.rstr = self.rstr & !bit;
        assert((before | bit) & !bit == before & !bit) by (bit_vector);
    }
}

/// Frozen clock frequencies. A value of this type stands for a clock
/// tree that has been configured and can no longer change.
#[derive(Clone, Copy, Debug, PartialEq, Eq, Structural)]
pub struct Clocks {
    hclk: Hertz,
    pclk1: Hertz,
    pclk2: Hertz,
    ppre1: u8,
    ppre2: u8,
    sysclk: Hertz,
}

impl Clocks {
    pub closed spec fn hclk_spec(&self) -> Hertz {
        self.hclk
    }

    pub closed spec fn pclk1_spec(&self) -> Hertz {
        self.pclk1
    }

    pub closed spec fn pclk2_spec(&self) -> Hertz {
        self.pclk2
    }

    pub closed spec fn ppre1_spec(&self) -> u8 {
        self.ppre1
    }

    pub closed spec fn ppre2_spec(&self) -> u8 {
        self.ppre2
    }

    pub closed spec fn sysclk_spec(&self) -> Hertz {
        self.sysclk
    }

    /// Returns the frequency of the AHB
    pub fn hclk(&self) -> (r: Hertz)
        ensures
            r == self.hclk_spec(),
    {
        self.hclk
    }

    /// Returns the frequency of the APB1
    pub fn pclk1(&self) -> (r: Hertz)
        ensures
            r == self.pclk1_spec(),
    {
        self.pclk1
    }

    /// Returns the frequency of the APB2
    pub fn pclk2(&self) -> (r: Hertz)
        ensures
            r == self.pclk2_spec(),
    {
        self.pclk2
    }

    /// Returns the divider from the AHB to the APB1
    pub fn ppre1(&self) -> (r: u8)
        ensures
            r == self.ppre1_spec(),
    {
        self.ppre1
    }

    /// Returns the divider from the AHB to the APB2
    pub fn ppre2(&self) -> (r: u8)
        ensures
            r == self.ppre2_spec(),
    {
        self.ppre2
    }

    /// Returns the system (core) frequency
    pub fn sysclk(&self) -> (r: Hertz)
        ensures
            r == self.sysclk_spec(),
    {
        self.sysclk
    }
}

/// Requested clock frequencies, each left to its default when `None`.
#[derive(Clone, Copy, Debug, PartialEq, Eq, Structural)]
pub struct CFGR {
    pub hclk: Option<u32>,
    pub pclk1: Option<u32>,
    pub pclk2: Option<u32>,
    pub sysclk: Option<u32>,
}

impl CFGR {
    /// No frequency requested.
    pub fn new() -> (r: Self)
        ensures
            r == (CFGR { hclk: None, pclk1: None, pclk2: None, sysclk: None }),
    {
        CFGR { hclk: None, pclk1: None, pclk2: None, sysclk: None }
    }

    /// Sets a frequency for the AHB bus
    pub fn hclk(self, freq: Hertz) -> (r: Self)
        ensures
            r == (CFGR { hclk: Some(freq.0), ..self }),
    {
        CFGR { hclk: Some(freq.0), ..self }
    }

    /// Sets a frequency for the APB1 bus
    pub fn pclk1(self, freq: Hertz) -> (r: Self)
        ensures
            r == (CFGR { pclk1: Some(freq.0), ..self }),
    {
        CFGR { pclk1: Some(freq.0), ..self }
    }

    /// Sets a frequency for the APB2 bus
    pub fn pclk2(self, freq: Hertz) -> (r: Self)
        ensures
            r == (CFGR { pclk2: Some(freq.0), ..self }),
    {
        CFGR { pclk2: Some(freq.0), ..self }
    }

    /// Sets the system (core) frequency
    pub fn sysclk(self, freq: Hertz) -> (r: Self)
        ensures
            r == (CFGR { sysclk: Some(freq.0), ..self }),
    {
        CFGR { sysclk: Some(freq.0), ..self }
    }

    /// The clocks of the full-speed tree that the HSE-driven PLL gives:
    /// 216 MHz system and AHB clocks, APB1 at a quarter and APB2 at half.
    pub fn freeze_max(self) -> (r: Clocks)
        ensures
            r.sysclk_spec() == Hertz(216_000_000),
            r.hclk_spec() == Hertz(216_000_000),
            r.pclk1_spec() == Hertz(54_000_000),
            r.pclk2_spec() == Hertz(108_000_000),
            r.ppre1_spec() == 4,
            r.ppre2_spec() == 2,
    {
        let sysclk: u32 = 216_000_000;
        let hclk: u32 = sysclk;
        let ppre1: u32 = 4;
        let ppre2: u32 = 2;
        Clocks {
            hclk: Hertz(hclk),
            pclk1: Hertz(hclk / ppre1),
            pclk2: Hertz(hclk / ppre2),
            ppre1: ppre1 as u8,
            ppre2: ppre2 as u8,
            sysclk: Hertz(sysclk),
        }
    }
}

/// The AHB prescaler field (HPRE) for a ratio of system clock to wanted
/// AHB clock: 0b0111 for no division, then the divider fields for
/// ratios 2, 3..5, 6..11, 12..39, 40..95, 96..191, 192..383 and above.
pub open spec fn ahb_prescaler_bits(ratio: u32) -> u8 {
    if ratio <= 1 {
        0b0111
    } else if ratio == 2 {
        0b1000
    } else if ratio <= 5 {
        0b1001
    } else if ratio <= 11 {
        0b1010
    } else if ratio <= 39 {
        0b1011
    } else if ratio <= 95 {
        0b1100
    } else if ratio <= 191 {
        0b1101
    } else if ratio <= 383 {
        0b1110
    } else {
        0b1111
    }
}

/// An APB prescaler field (PPREx) for a ratio of AHB clock to wanted APB
/// clock: 0b011 for no division, then the fields for ratios 2, 3..5,
/// 6..11 and above.
pub open spec fn apb_prescaler_bits(ratio: u32) -> u8 {
    if ratio <= 1 {
        0b011
    } else if ratio == 2 {
        0b100
    } else if ratio <= 5 {
        0b101
    } else if ratio <= 11 {
        0b110
    } else {
        0b111
    }
}

fn ahb_bits(ratio: u32) -> (r: u8)
    ensures
        r == ahb_prescaler_bits(ratio),
        7 <= r <= 15,
{
    if ratio <= 1 {
        0b0111
    } else if ratio == 2 {
        0b1000
    } else if ratio <= 5 {
        0b1001
    } else if ratio <= 11 {
        0b1010
    } else if ratio <= 39 {
        0b1011
    } else if ratio <= 95 {
        0b1100
    } else if ratio <= 191 {
        0b1101
    } else if ratio <= 383 {
        0b1110
    } else {
        0b1111
    }
}

fn apb_bits(ratio: u32) -> (r: u8)
    ensures
        r == apb_prescaler_bits(ratio),
        3 <= r <= 7,
{
    if ratio <= 1 {
        0b011
    } else if ratio == 2 {
        0b100
    } else if ratio <= 5 {
        0b101
    } else if ratio <= 11 {
        0b110
    } else {
        0b111
    }
}

/// The system clock asked for, the HSI frequency when none is.
pub open spec fn requested_sysclk(c: CFGR) -> u32 {
    match c.sysclk {
        Some(s) => s,
        None => HSI,
    }
}

/// The PLL multiplier: twice the requested system clock over HSI, kept
/// within 2..16.
pub open spec fn pll_multiplier(c: CFGR) -> int {
    let m = (2 * requested_sysclk(c)) / HSI as int;
    if m < 2 {
        2
    } else if m > 16 {
        16
    } else {
        m
    }
}

/// The system clock that the PLL multiplier gives from HSI.
pub open spec fn frozen_sysclk(c: CFGR) -> u32 {
    (pll_multiplier(c) * HSI / 2) as u32
}

/// The AHB prescaler field chosen for a request.
pub open spec fn frozen_hpre_bits(c: CFGR) -> u8 {
    match c.hclk {
        Some(h) => ahb_prescaler_bits(frozen_sysclk(c) / h),
        None => 0b0111,
    }
}

/// The AHB clock: the system clock shifted right by the prescaler field
/// less 0b0111.
pub open spec fn frozen_hclk(c: CFGR) -> u32 {
    frozen_sysclk(c) >> ((frozen_hpre_bits(c) - 7) as u32)
}

/// The APB prescaler field chosen for a wanted APB clock.
pub open spec fn frozen_ppre_bits(hclk: u32, want: Option<u32>) -> u8 {
    match want {
        Some(p) => apb_prescaler_bits(hclk / p),
        None => 0b011,
    }
}

/// The APB clock: the AHB clock shifted right by the field less 0b011.
pub open spec fn apb_clock(hclk: u32, bits: u8) -> u32 {
    hclk >> ((bits - 3) as u32)
}

/// A request that `freeze` can meet: the doubled system clock fits 32
/// bits, the system clock stays at most 72 MHz, each bus request is
/// nonzero and no faster than the clock it divides, APB1 ends at most
/// 45 MHz and APB2 at most 90 MHz.
pub open spec fn freezable(c: CFGR) -> bool {
    let sysclk = frozen_sysclk(c);
    let hclk = frozen_hclk(c);
    &&& requested_sysclk(c) <= 0x7FFF_FFFF
    &&& sysclk <= 72_000_000
    &&& (c.hclk matches Some(h) ==> 0 < h <= sysclk)
    &&& (c.pclk1 matches Some(p) ==> 0 < p <= hclk)
    &&& (c.pclk2 matches Some(p) ==> 0 < p <= hclk)
    &&& apb_clock(hclk, frozen_ppre_bits(hclk, c.pclk1)) <= 45_000_000
    &&& apb_clock(hclk, frozen_ppre_bits(hclk, c.pclk2)) <= 90_000_000
}

/// A clock tree settled by `freeze`: the frequencies, and the register
/// fields that give them.
#[derive(Clone, Copy, Debug, PartialEq, Eq, Structural)]
pub struct ClockSetup {
    pub clocks: Clocks,
    /// PLL multiplier field, `None` when HSI drives the system clock.
    pub pllmul_bits: Option<u8>,
    pub hpre_bits: u8,
    pub ppre1_bits: u8,
    pub ppre2_bits: u8,
    /// Flash wait states for the system clock.
    pub flash_latency: u8,
}

impl CFGR {
    /// Settles the clock tree for the requested frequencies, as close as
    /// the HSI-driven PLL and the bus prescalers allow. A request that
    /// cannot be met (see `freezable`) gives `None`.
    pub fn freeze(self) -> (r: Option<ClockSetup>)
        ensures
            r is Some <==> freezable(self),
            r matches Some(s) ==> {
                let hclk = frozen_hclk(self);
                let p1 = frozen_ppre_bits(hclk, self.pclk1);
                let p2 = frozen_ppre_bits(hclk, self.pclk2);
                &&& s.clocks.sysclk_spec() == Hertz(frozen_sysclk(self))
                &&& s.clocks.hclk_spec() == Hertz(hclk)
                &&& s.clocks.pclk1_spec() == Hertz(apb_clock(hclk, p1))
                &&& s.clocks.pclk2_spec() == Hertz(apb_clock(hclk, p2))
                &&& s.clocks.ppre1_spec() == 1u8 << ((p1 - 3) as u8)
                &&& s.clocks.ppre2_spec() == 1u8 << ((p2 - 3) as u8)
                &&& s.pllmul_bits == if pll_multiplier(self) == 2 {
                    None
                } else {
                    Some((pll_multiplier(self) - 2) as u8)
                }
                &&& s.hpre_bits == frozen_hpre_bits(self)
                &&& s.ppre1_bits == p1
                &&& s.ppre2_bits == p2
                &&& s.flash_latency == if frozen_sysclk(self) <= 24_000_000 {
                    0u8
                } else if frozen_sysclk(self) <= 48_000_000 {
                    1u8
                } else {
                    2u8
                }
            },
    {
        let requested: u32 = match self.sysclk {
            Some(s) => s,
            None => HSI,
        };
        if requested > 0x7FFF_FFFF {
            return None;
        }
        let mut pllmul: u32 = (2 * requested) / HSI;
        if pllmul < 2 {
            pllmul = 2;
        }
        if pllmul > 16 {
            pllmul = 16;
        }
        let pllmul_bits: Option<u8> = if pllmul == 2 {
            None
        } else {
            Some((pllmul - 2) as u8)
        };
        let sysclk: u32 = pllmul * HSI / 2;
        if sysclk > 72_000_000 {
            return None;
        }
        let hpre_bits: u8 = match self.hclk {
            Some(h) => {
                if h == 0 || h > sysclk {
                    return None;
                }
                ahb_bits(sysclk / h)
            },
            None => 0b0111,
        };
        let hclk: u32 = sysclk >> ((hpre_bits - 7) as u32);
        let ppre1_bits: u8 = match self.pclk1 {
            Some(p) => {
                if p == 0 || p > hclk {
                    return None;
                }
                apb_bits(hclk / p)
            },
            None => 0b011,
        };
        let pclk1: u32 = hclk >> ((ppre1_bits - 3) as u32);
        if pclk1 > 45_000_000 {
            return None;
        }
        let ppre2_bits: u8 = match self.pclk2 {
            Some(p) => {
                if p == 0 || p > hclk {
                    return None;
                }
                apb_bits(hclk / p)
            },
            None => 0b011,
        };
        let pclk2: u32 = hclk >> ((ppre2_bits - 3) as u32);
        if pclk2 > 90_000_000 {
            return None;
        }
        let flash_latency: u8 = if sysclk <= 24_000_000 {
            0
        } else if sysclk <= 48_000_000 {
            1
        } else {
            2
        };
        Some(
            ClockSetup {
                clocks: Clocks {
                    hclk: Hertz(hclk),
                    pclk1: Hertz(pclk1),
                    pclk2: Hertz(pclk2),
                    ppre1: 1u8 << (ppre1_bits - 3),
                    ppre2: 1u8 << (ppre2_bits - 3),
                    sysclk: Hertz(sysclk),
                },
                pllmul_bits,
                hpre_bits,
                ppre1_bits,
                ppre2_bits,
                flash_latency,
            },
        )
    }
}

/// The causes of the last reset, as flagged in the control and status
/// register (RCC_CSR).
#[derive(Clone, Copy, Debug, PartialEq, Eq, Structural)]
pub struct ResetConditions {
    pub low_power: bool,
    pub window_watchdog: bool,
    pub independent_watchdog: bool,
    pub software: bool,
    pub por_pdr: bool,
    pub pin: bool,
    pub bor: bool,
}

/// Remove-reset-flags bit (RMVF) of RCC_CSR; writing it clears the flags.
pub const RMVF_BIT: u32 = 0x0100_0000;

impl ResetConditions {
    /// Reads the reset flags out of an RCC_CSR value: LPWRRSTF (bit 31),
    /// WWDGRSTF (30), IWDGRSTF (29), SFTRSTF (28), PORRSTF (27),
    /// PINRSTF (26) and BORRSTF (25).
    pub fn from_csr(csr: u32) -> (r: Self)
        ensures
            r.low_power == (csr & 0x8000_0000 != 0),
            r.window_watchdog == (csr & 0x4000_0000 != 0),
            r.independent_watchdog == (csr & 0x2000_0000 != 0),
            r.software == (csr & 0x1000_0000 != 0),
            r.por_pdr == (csr & 0x0800_0000 != 0),
            r.pin == (csr & 0x0400_0000 != 0),
            r.bor == (csr & 0x0200_0000 != 0),
    {
        ResetConditions {
            low_power: csr & 0x8000_0000 != 0,
            window_watchdog: csr & 0x4000_0000 != 0,
            independent_watchdog: csr & 0x2000_0000 != 0,
            software: csr & 0x1000_0000 != 0,
            por_pdr: csr & 0x0800_0000 != 0,
            pin: csr & 0x0400_0000 != 0,
            bor: csr & 0x0200_0000 != 0,
        }
    }
}

} // verus!
