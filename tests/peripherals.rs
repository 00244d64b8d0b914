use stm32f767_hal::adc::{self, Adc, Channel, SampleTime};
use stm32f767_hal::iwdg::{self, IwdgConfig, WatchdogTimeout};
use stm32f767_hal::rcc::{ResetConditions, APB1, APB2, CFGR};
use stm32f767_hal::time::Hertz;

#[test]
fn iwdg_default_config() {
    let c = IwdgConfig::new();
    assert_eq!(c.reload, 0xFA);
    assert_eq!(c.prescaler, iwdg::Prescaler::Prescaler32);
}

#[test]
fn iwdg_timeouts() {
    assert_eq!(IwdgConfig::from(WatchdogTimeout::Wdto20ms).reload, 20);
    assert_eq!(IwdgConfig::from(WatchdogTimeout::Wdto50ms).reload, 50);
    assert_eq!(IwdgConfig::from(WatchdogTimeout::Wdto250ms).reload, 250);
    let c = IwdgConfig::from(WatchdogTimeout::Wdto500ms);
    assert_eq!(c.reload, 500);
    assert_eq!(c.prescaler, iwdg::Prescaler::Prescaler32);
}

#[test]
fn iwdg_register_encodings() {
    assert_eq!(u8::from(iwdg::Prescaler::Prescaler4), 0);
    assert_eq!(u8::from(iwdg::Prescaler::Prescaler64), 4);
    assert_eq!(u8::from(iwdg::Prescaler::Prescaler256), 6);
    let c = IwdgConfig { reload: 0xF123, prescaler: iwdg::Prescaler::Prescaler8 };
    assert_eq!(c.reload_bits(), 0x0123);
}

#[test]
fn adc_register_encodings() {
    assert_eq!(u8::from(SampleTime::Cycles3), 0);
    assert_eq!(u8::from(SampleTime::Cycles480), 7);
    assert_eq!(u8::from(Channel::Adc3In15), 15);
    assert_eq!(u8::from(Channel::Adc12In9), 9);
    assert_eq!(u8::from(adc::Prescaler::Prescaler6), 2);
}

#[test]
fn adc_channel_selection() {
    let mut a = Adc::new(());
    a.select_channel(Channel::Adc123In13, SampleTime::Cycles56);
    assert_eq!(a.regs.sqr3, 13);
    assert_eq!(a.regs.smpr1, 3 << 9);
    assert_eq!(a.regs.smpr2, 0);
    a.select_channel(Channel::Adc3In8, SampleTime::Cycles144);
    assert_eq!(a.regs.sqr3, 8);
    assert_eq!(a.regs.smpr2, 6 << 24);
    assert_eq!(a.regs.smpr1, 3 << 9);
}

#[test]
fn full_speed_clocks() {
    let clocks = CFGR::new().sysclk(Hertz(1)).freeze_max();
    assert_eq!(clocks.sysclk(), Hertz(216_000_000));
    assert_eq!(clocks.hclk(), Hertz(216_000_000));
    assert_eq!(clocks.pclk1(), Hertz(54_000_000));
    assert_eq!(clocks.pclk2(), Hertz(108_000_000));
    assert_eq!(clocks.ppre1(), 4);
    assert_eq!(clocks.ppre2(), 2);
}

#[test]
fn cfgr_builder() {
    let c = CFGR::new().hclk(Hertz(1)).pclk1(Hertz(2)).pclk2(Hertz(3)).sysclk(Hertz(4));
    assert_eq!(c.hclk, Some(1));
    assert_eq!(c.pclk1, Some(2));
    assert_eq!(c.pclk2, Some(3));
    assert_eq!(c.sysclk, Some(4));
}

#[test]
fn reset_flags_from_csr() {
    let r = ResetConditions::from_csr(0xA400_0000);
    assert!(r.low_power && !r.window_watchdog && r.independent_watchdog && !r.software);
    assert!(!r.por_pdr && r.pin && !r.bor);
    let none = ResetConditions::from_csr(0x01FF_FFFF);
    assert!(!none.low_power && !none.bor && !none.pin);
}

#[test]
fn bus_enable_and_reset() {
    let mut apb1 = APB1 { enr: 0x1, rstr: 0x0200_0001 };
    apb1.enable_and_reset(0x0200_0000);
    assert_eq!(apb1.enr, 0x0200_0001);
    assert_eq!(apb1.rstr, 0x1);
    let mut apb2 = APB2 { enr: 0, rstr: 0 };
    apb2.enable_and_reset(0x100);
    assert_eq!(apb2.enr, 0x100);
    assert_eq!(apb2.rstr, 0);
}

#[test]
fn freeze_defaults_to_hsi() {
    let s = CFGR::new().freeze().unwrap();
    assert_eq!(s.clocks.sysclk(), Hertz(16_000_000));
    assert_eq!(s.clocks.hclk(), Hertz(16_000_000));
    assert_eq!(s.clocks.pclk1(), Hertz(16_000_000));
    assert_eq!(s.clocks.pclk2(), Hertz(16_000_000));
    assert_eq!(s.clocks.ppre1(), 1);
    assert_eq!(s.clocks.ppre2(), 1);
    assert_eq!(s.pllmul_bits, None);
    assert_eq!(s.hpre_bits, 0b0111);
    assert_eq!(s.ppre1_bits, 0b011);
    assert_eq!(s.ppre2_bits, 0b011);
    assert_eq!(s.flash_latency, 0);
}

#[test]
fn freeze_pll_with_divided_apb1() {
    let s = CFGR::new().sysclk(Hertz(64_000_000)).pclk1(Hertz(32_000_000)).freeze().unwrap();
    assert_eq!(s.clocks.sysclk(), Hertz(64_000_000));
    assert_eq!(s.clocks.hclk(), Hertz(64_000_000));
    assert_eq!(s.clocks.pclk1(), Hertz(32_000_000));
    assert_eq!(s.clocks.pclk2(), Hertz(64_000_000));
    assert_eq!(s.clocks.ppre1(), 2);
    assert_eq!(s.pllmul_bits, Some(6));
    assert_eq!(s.ppre1_bits, 0b100);
    assert_eq!(s.flash_latency, 2);
}

#[test]
fn freeze_ahb_prescaler_table() {
    let s = CFGR::new()
        .sysclk(Hertz(48_000_000))
        .hclk(Hertz(16_000_000))
        .freeze()
        .unwrap();
    assert_eq!(s.clocks.sysclk(), Hertz(48_000_000));
    assert_eq!(s.hpre_bits, 0b1001);
    assert_eq!(s.clocks.hclk(), Hertz(12_000_000));
    assert_eq!(s.pllmul_bits, Some(4));
    assert_eq!(s.flash_latency, 1);
}

#[test]
fn freeze_clamps_low_request() {
    let s = CFGR::new().sysclk(Hertz(1)).freeze().unwrap();
    assert_eq!(s.clocks.sysclk(), Hertz(16_000_000));
}

#[test]
fn freeze_rejects_impossible_requests() {
    assert!(CFGR::new().sysclk(Hertz(80_000_000)).freeze().is_none());
    assert!(CFGR::new().sysclk(Hertz(0x8000_0000)).freeze().is_none());
    assert!(CFGR::new().hclk(Hertz(0)).freeze().is_none());
    assert!(CFGR::new().hclk(Hertz(32_000_000)).freeze().is_none());
    assert!(CFGR::new().pclk2(Hertz(17_000_000)).freeze().is_none());
    assert!(CFGR::new().sysclk(Hertz(64_000_000)).freeze().is_none());
}
