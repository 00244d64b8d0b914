//! Analog-to-digital converter settings: sample times, channels and the
//! common clock prescaler, with their register encodings, and the channel
//! selection that precedes a single conversion.
use vstd::prelude::*;

verus! {

/// Sampling time of a conversion, in ADC clock cycles.
#[derive(Clone, Copy, Debug, PartialEq, Eq, Structural)]
pub enum SampleTime {
    Cycles3,
    Cycles15,
    Cycles28,
    Cycles56,
    Cycles84,
    Cycles112,
    Cycles144,
    Cycles480,
}

/// The input channels wired on this board, named by the converters that
/// reach them.
#[derive(Clone, Copy, Debug, PartialEq, Eq, Structural)]
pub enum Channel {
    Adc123In3,
    Adc123In10,
    Adc123In13,
    Adc12In9,
    Adc3In9,
    Adc3In15,
    Adc3In8,
}

/// Divider from APB2 to the common ADC clock.
#[derive(Clone, Copy, Debug, PartialEq, Eq, Structural)]
pub enum Prescaler {
    Prescaler2,
    Prescaler4,
    Prescaler6,
    Prescaler8,
}

/// The SMPx field value of a sample time.
pub open spec fn sample_time_bits(s: SampleTime) -> u8 {
    match s {
        SampleTime::Cycles3 => 0,
        SampleTime::Cycles15 => 1,
        SampleTime::Cycles28 => 2,
        SampleTime::Cycles56 => 3,
        SampleTime::Cycles84 => 4,
        SampleTime::Cycles112 => 5,
        SampleTime::Cycles144 => 6,
        SampleTime::Cycles480 => 7,
    }
}

/// The channel number of an input.
pub open spec fn channel_number(c: Channel) -> u8 {
    match c {
        Channel::Adc123In3 => 3,
        Channel::Adc123In10 => 10,
        Channel::Adc123In13 => 13,
        Channel::Adc12In9 => 9,
        Channel::Adc3In9 => 9,
        Channel::Adc3In15 => 15,
        Channel::Adc3In8 => 8,
    }
}

/// The ADCPRE field value of a prescaler.
pub open spec fn prescaler_bits(p: Prescaler) -> u8 {
    match p {
        Prescaler::Prescaler2 => 0,
        Prescaler::Prescaler4 => 1,
        Prescaler::Prescaler6 => 2,
        Prescaler::Prescaler8 => 3,
    }
}

impl From<SampleTime> for u8 {
    fn from(s: SampleTime) -> (r: u8) {
        match s {
            SampleTime::Cycles3 => 0b000,
            SampleTime::Cycles15 => 0b001,
            SampleTime::Cycles28 => 0b010,
            SampleTime::Cycles56 => 0b011,
            SampleTime::Cycles84 => 0b100,
            SampleTime::Cycles112 => 0b101,
            SampleTime::Cycles144 => 0b110,
            SampleTime::Cycles480 => 0b111,
        }
    }
}

impl vstd::std_specs::convert::FromSpecImpl<SampleTime> for u8 {
    open spec fn obeys_from_spec() -> bool {
        true
    }

    open spec fn from_spec(s: SampleTime) -> u8 {
        sample_time_bits(s)
    }
}

impl From<Channel> for u8 {
    fn from(c: Channel) -> (r: u8) {
        match c {
            Channel::Adc123In3 => 3,
            Channel::Adc123In10 => 10,
            Channel::Adc123In13 => 13,
            Channel::Adc12In9 => 9,
            Channel::Adc3In9 => 9,
            Channel::Adc3In15 => 15,
            Channel::Adc3In8 => 8,
        }
    }
}

impl vstd::std_specs::convert::FromSpecImpl<Channel> for u8 {
    open spec fn obeys_from_spec() -> bool {
        true
    }

    open spec fn from_spec(c: Channel) -> u8 {
        channel_number(c)
    }
}

impl From<Prescaler> for u8 {
    fn from(p: Prescaler) -> (r: u8) {
        match p {
            Prescaler::Prescaler2 => 0b00,
            Prescaler::Prescaler4 => 0b01,
            Prescaler::Prescaler6 => 0b10,
            Prescaler::Prescaler8 => 0b11,
        }
    }
}

impl vstd::std_specs::convert::FromSpecImpl<Prescaler> for u8 {
    open spec fn obeys_from_spec() -> bool {
        true
    }

    open spec fn from_spec(p: Prescaler) -> u8 {
        prescaler_bits(p)
    }
}

/// The sequence and sample-time registers of one converter.
#[derive(Clone, Copy, Debug, PartialEq, Eq, Structural)]
pub struct AdcRegisters {
    /// Regular sequence register 3: the first conversion's channel (SQR3).
    pub sqr3: u32,
    /// Sample times of channels 10..18, three bits each (SMPR1).
    pub smpr1: u32,
    /// Sample times of channels 0..9, three bits each (SMPR2).
    pub smpr2: u32,
}

/// A converter, with its registers.
pub struct Adc<ADC> {
    /// Which converter this is.
    pub adc: ADC,
    pub regs: AdcRegisters,
}

impl<ADC> Adc<ADC> {
    /// Takes a converter whose registers are at their reset value.
    pub fn new(adc: ADC) -> (r: Self)
        ensures
            r.regs == (AdcRegisters { sqr3: 0, smpr1: 0, smpr2: 0 }),
    {
        Adc { adc, regs: AdcRegisters { sqr3: 0, smpr1: 0, smpr2: 0 } }
    }

    /// Sets up a single conversion of `channel`: the channel becomes the
    /// first of the sequence, and the sample-time register of its bank is
    /// written with its three-bit field alone, at bit `3 * channel` for
    /// channels 0..9 (SMPR2) or `3 * (channel - 10)` for 10..18 (SMPR1).
    pub fn select_channel(&mut self, channel: Channel, sample_time: SampleTime)
        ensures
            final(self).regs.sqr3 == channel_number(channel) as u32,
            channel_number(channel) >= 10 ==> final(self).regs.smpr1 == (sample_time_bits(
                sample_time,
            ) as u32) << ((3 * (channel_number(channel) - 10)) as u32) && final(self).regs.smpr2
                == old(self).regs.smpr2,
            channel_number(channel) < 10 ==> final(self).regs.smpr2 == (sample_time_bits(
                sample_time,
            ) as u32) << ((3 * channel_number(channel)) as u32) && final(self).regs.smpr1 == old(
                self,
            ).regs.smpr1,
    {
        let ch: u8 = u8::from(channel);
        let smpt: u32 = u8::from(sample_time) as u32;
        self.regs.sqr3 = ch as u32;
        if ch >= 10 {
            self.regs.smpr1 = smpt << (3 * (ch - 10)) as u32;
        } else {
            self.regs.smpr2 = smpt << (3 * ch) as u32;
        }
    }
}

} // verus!
