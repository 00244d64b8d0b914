//! Independent watchdog configuration: the prescaler and reload values
//! that set its timeout, and their register encodings.
use vstd::prelude::*;

verus! {

/// Key that reloads the watchdog counter.
pub const KEY_RELOAD: u16 = 0xAAAA;

/// Key that starts the watchdog.
pub const KEY_ENABLE: u16 = 0xCCCC;

/// Key that unlocks the prescaler and reload registers.
pub const KEY_WRITE_ACCESS_ENABLE: u16 = 0x5555;

/// Key that locks the prescaler and reload registers again.
pub const KEY_WRITE_ACCESS_DISABLE: u16 = 0x0000;

/// Reset value of the reload register, and the mask of its field.
pub const DEFAULT_RELOAD_VALUE: u16 = 0x0FFF;

/// A few ready-made timeouts.
#[derive(Clone, Copy, Debug, PartialEq, Eq, Structural)]
pub enum WatchdogTimeout {
    /// 20 ms timeout
    Wdto20ms,
    /// 50 ms timeout
    Wdto50ms,
    /// 250 ms timeout
    Wdto250ms,
    /// 500 ms timeout
    Wdto500ms,
}

/// Divider of the watchdog's ~32 kHz clock.
#[derive(Clone, Copy, Debug, PartialEq, Eq, Structural)]
pub enum Prescaler {
    Prescaler4,
    Prescaler8,
    Prescaler16,
    Prescaler32,
    Prescaler64,
    Prescaler128,
    Prescaler256,
}

/// The value of the prescaler register (IWDG_PR) for a divider.
pub open spec fn prescaler_bits(p: Prescaler) -> u8 {
    match p {
        Prescaler::Prescaler4 => 0,
        Prescaler::Prescaler8 => 1,
        Prescaler::Prescaler16 => 2,
        Prescaler::Prescaler32 => 3,
        Prescaler::Prescaler64 => 4,
        Prescaler::Prescaler128 => 5,
        Prescaler::Prescaler256 => 6,
    }
}

impl From<Prescaler> for u8 {
    fn from(p: Prescaler) -> (r: u8) {
        match p {
            Prescaler::Prescaler4 => 0b000,
            Prescaler::Prescaler8 => 0b001,
            Prescaler::Prescaler16 => 0b010,
            Prescaler::Prescaler32 => 0b011,
            Prescaler::Prescaler64 => 0b100,
            Prescaler::Prescaler128 => 0b101,
            Prescaler::Prescaler256 => 0b110,
        }
    }
}

impl vstd::std_specs::convert::FromSpecImpl<Prescaler> for u8 {
    open spec fn obeys_from_spec() -> bool {
        true
    }

    open spec fn from_spec(p: Prescaler) -> u8 {
        prescaler_bits(p)
    }
}

/// Watchdog settings: reload value and prescaler.
#[derive(Clone, Copy, Debug, PartialEq, Eq, Structural)]
pub struct IwdgConfig {
    pub reload: u16,
    pub prescaler: Prescaler,
}

impl IwdgConfig {
    /// About 250 ms: a reload of 250 at prescaler 32.
    pub fn new() -> (r: Self)
        ensures
            r == (IwdgConfig { reload: 0xFA, prescaler: Prescaler::Prescaler32 }),
    {
        IwdgConfig { reload: 0xFA, prescaler: Prescaler::Prescaler32 }
    }

    /// The value written to the reload register: the reload value cut to
    /// the register's twelve bits.
    pub fn reload_bits(&self) -> (r: u16)
        ensures
            r == self.reload & DEFAULT_RELOAD_VALUE,
    {
        self.reload & DEFAULT_RELOAD_VALUE
    }
}

/// The reload value of a ready-made timeout. With the ~32 kHz clock and
/// prescaler 32 the reload counts roughly milliseconds.
pub open spec fn timeout_reload(t: WatchdogTimeout) -> u16 {
    match t {
        WatchdogTimeout::Wdto20ms => 20,
        WatchdogTimeout::Wdto50ms => 50,
        WatchdogTimeout::Wdto250ms => 250,
        WatchdogTimeout::Wdto500ms => 500,
    }
}

impl From<WatchdogTimeout> for IwdgConfig {
    fn from(to: WatchdogTimeout) -> (r: IwdgConfig) {
        match to {
            WatchdogTimeout::Wdto20ms => IwdgConfig { reload: 20, prescaler: Prescaler::Prescaler32 },
            WatchdogTimeout::Wdto50ms => IwdgConfig { reload: 50, prescaler: Prescaler::Prescaler32 },
            WatchdogTimeout::Wdto250ms => IwdgConfig {
                reload: 250,
                prescaler: Prescaler::Prescaler32,
            },
            WatchdogTimeout::Wdto500ms => IwdgConfig {
                reload: 500,
                prescaler: Prescaler::Prescaler32,
            },
        }
    }
}

impl vstd::std_specs::convert::FromSpecImpl<WatchdogTimeout> for IwdgConfig {
    open spec fn obeys_from_spec() -> bool {
        true
    }

    open spec fn from_spec(t: WatchdogTimeout) -> IwdgConfig {
        IwdgConfig { reload: timeout_reload(t), prescaler: Prescaler::Prescaler32 }
    }
}

} // verus!
