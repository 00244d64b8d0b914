//! Register-level driver core for the bxCAN controller of the STM32F7
//! family, together with the small configuration value types of the
//! neighbouring peripherals (watchdog, ADC, clock tree).
//!
//! The CAN core works on a typed model of the controller's registers:
//! each operation is a read-modify-write of that model whose effect is
//! stated exactly in its contract.
pub mod adc;
pub mod can;
pub mod filter;
pub mod frame;
pub mod iwdg;
pub mod rcc;
pub mod time;
