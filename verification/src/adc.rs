//! 14-bit analog-to-digital converter (ADC140): configuration, channel selection
//! and result addressing for polled single-scan conversions.
use vstd::prelude::*;

verus! {

/// Base address of the `ADDRn` array.
pub const ADDR_BASE: usize = 0x4005_c020;

/// Conversion errors.
#[derive(Clone, Copy, PartialEq, Eq, Debug, Structural)]
pub enum Error {
    /// The conversion did not finish in time.
    Timeout,
    /// The channel number is outside the range the hardware implements.
    InvalidChannel,
}

/// Result resolution.
#[derive(Clone, Copy, PartialEq, Eq, Debug, Default, Structural)]
pub enum Resolution {
    /// 14 bits. Results are 0..=16383.
    #[default]
    Bits14,
    /// 12 bits. Results are 0..=4095.
    Bits12,
    /// 10 bits. Results are 0..=1023.
    Bits10,
    /// 8 bits. Results are 0..=255.
    Bits8,
}

/// The number of bits a resolution gives.
pub open spec fn resolution_bits(r: Resolution) -> nat {
    match r {
        Resolution::Bits14 => 14,
        Resolution::Bits12 => 12,
        Resolution::Bits10 => 10,
        Resolution::Bits8 => 8,
    }
}

impl Resolution {
    /// The largest value a conversion can produce: `2^bits - 1`.
    pub open spec fn spec_max_value(self) -> u16 {
        match self {
            Resolution::Bits14 => 16383,
            Resolution::Bits12 => 4095,
            Resolution::Bits10 => 1023,
            Resolution::Bits8 => 255,
        }
    }

    /// The largest value a conversion can produce.
    pub fn max_value(self) -> (r: u16)
        ensures
            r == self.spec_max_value(),
            r + 1 == vstd::arithmetic::power2::pow2(resolution_bits(self)),
    {
        proof {
            vstd::arithmetic::power2::lemma2_to64();
        }
        match self {
            Resolution::Bits14 => 16383,
            Resolution::Bits12 => 4095,
            Resolution::Bits10 => 1023,
            Resolution::Bits8 => 255,
        }
    }

    /// The `ADCER.ADPRC` encoding.
    pub open spec fn spec_adprc(self) -> u8 {
        match self {
            Resolution::Bits14 => 0u8,
            Resolution::Bits12 => 1u8,
            Resolution::Bits10 => 2u8,
            Resolution::Bits8 => 3u8,
        }
    }

    /// `ADCER.ADPRC`.
    pub fn adprc(self) -> (r: u8)
        ensures
            r == self.spec_adprc(),
    {
        match self {
            Resolution::Bits14 => 0b00,
            Resolution::Bits12 => 0b01,
            Resolution::Bits10 => 0b10,
            Resolution::Bits8 => 0b11,
        }
    }
}

/// ADC configuration.
#[derive(Clone, Copy, PartialEq, Eq, Debug, Structural)]
pub struct Config {
    /// Result resolution.
    pub resolution: Resolution,
    /// Sampling time in ADC clock (PCLKC) cycles, 5..=255. Smaller values are
    /// raised to 5.
    pub sample_cycles: u8,
    /// Convert at high speed.
    pub high_speed: bool,
}

impl Default for Config {
    fn default() -> (r: Self)
        ensures
            r.resolution == Resolution::Bits14,
            r.sample_cycles == 13,
            r.high_speed,
    {
        Config { resolution: Resolution::Bits14, sample_cycles: 13, high_speed: true }
    }
}

impl Config {
    /// The sampling-state count written to every `ADSSTRn`: `sample_cycles`, at
    /// least 5.
    pub fn sampling_states(&self) -> (r: u8)
        ensures
            r == if self.sample_cycles < 5 { 5 } else { self.sample_cycles },
    {
        if self.sample_cycles < 5 {
            5
        } else {
            self.sample_cycles
        }
    }

    /// `ADCSR.ADHSC`: set for low-current (not high-speed) conversion.
    pub fn adhsc(&self) -> (r: bool)
        ensures
            r == !self.high_speed,
    {
        !self.high_speed
    }

    /// The `ADCER` value: `ADPRC` (bits 1..=2) from the resolution; right-aligned
    /// results (`ADRFMT` clear), no automatic clearing (`ACE` clear) and no
    /// self-diagnosis.
    pub fn adcer(&self) -> (r: u16)
        ensures
            (r >> 1u16) & 3 == self.resolution.spec_adprc(),
            r & !6u16 == 0,
    {
        let a = self.resolution.adprc() as u16;
        let r = a << 1u16;
        assert((r >> 1u16) & 3 == a && r & !6u16 == 0) by (bit_vector)
            requires
                r == a << 1u16,
                a < 4,
        ;
        r
    }

    /// The `ADCSR` value: single scan (`ADCS` = 0), software trigger, no
    /// interrupts, `ADHSC` set for low-current conversion, `ADST` clear.
    pub fn adcsr(&self) -> (r: u16)
        ensures
            r == if self.high_speed { 0u16 } else { ADCSR_ADHSC },
    {
        if self.high_speed {
            0
        } else {
            ADCSR_ADHSC
        }
    }
}

/// `ADCSR.ADST`: a scan is running. Setting it starts one; it clears at the end.
pub const ADCSR_ADST: u16 = 0x8000;
/// `ADCSR.ADHSC`: low-current conversion.
pub const ADCSR_ADHSC: u16 = 0x0400;

/// The `ADCSR` value that starts a scan: the value read with `ADST` set.
pub fn adcsr_start(adcsr: u16) -> (r: u16)
    ensures
        r == adcsr | ADCSR_ADST,
{
    adcsr | ADCSR_ADST
}

/// Is a scan still running, according to the `ADCSR` value read?
pub fn adcsr_busy(adcsr: u16) -> (r: bool)
    ensures
        r == (adcsr & ADCSR_ADST != 0),
{
    adcsr & ADCSR_ADST != 0
}

/// An analog input channel.
///
/// Only the channels the `ADANSA` registers can select exist: AN000..=AN009 and
/// AN016..=AN025. Which are bonded out depends on the package.
#[allow(non_camel_case_types)]
#[derive(Clone, Copy, PartialEq, Eq, Debug, Structural)]
pub enum Channel {
    /// AN000.
    AN000,
    /// AN001.
    AN001,
    /// AN002.
    AN002,
    /// AN003.
    AN003,
    /// AN004.
    AN004,
    /// AN005.
    AN005,
    /// AN006.
    AN006,
    /// AN007.
    AN007,
    /// AN008.
    AN008,
    /// AN009.
    AN009,
    /// AN016.
    AN016,
    /// AN017.
    AN017,
    /// AN018.
    AN018,
    /// AN019.
    AN019,
    /// AN020.
    AN020,
    /// AN021.
    AN021,
    /// AN022.
    AN022,
    /// AN023.
    AN023,
    /// AN024.
    AN024,
    /// AN025.
    AN025,
}

/// Channel numbers the `ADANSA` registers can select: 0..=9 and 16..=25.
pub open spec fn is_channel_number(n: int) -> bool {
    n <= 9 || (16 <= n && n <= 25)
}

impl Channel {
    /// The channel number.
    pub open spec fn spec_number(self) -> u8 {
        match self {
            Channel::AN000 => 0,
            Channel::AN001 => 1,
            Channel::AN002 => 2,
            Channel::AN003 => 3,
            Channel::AN004 => 4,
            Channel::AN005 => 5,
            Channel::AN006 => 6,
            Channel::AN007 => 7,
            Channel::AN008 => 8,
            Channel::AN009 => 9,
            Channel::AN016 => 16,
            Channel::AN017 => 17,
            Channel::AN018 => 18,
            Channel::AN019 => 19,
            Channel::AN020 => 20,
            Channel::AN021 => 21,
            Channel::AN022 => 22,
            Channel::AN023 => 23,
            Channel::AN024 => 24,
            Channel::AN025 => 25,
        }
    }

    /// An arbitrary channel number.
    ///
    /// Returns `None` for numbers the `ADANSA` registers cannot select: 10..=15 and
    /// anything above 25.
    pub fn new(n: u8) -> (r: Option<Self>)
        ensures
            r is Some <==> is_channel_number(n as int),
            r matches Some(c) ==> c.spec_number() == n,
    {
        match n {
            0 => Some(Channel::AN000),
            1 => Some(Channel::AN001),
            2 => Some(Channel::AN002),
            3 => Some(Channel::AN003),
            4 => Some(Channel::AN004),
            5 => Some(Channel::AN005),
            6 => Some(Channel::AN006),
            7 => Some(Channel::AN007),
            8 => Some(Channel::AN008),
            9 => Some(Channel::AN009),
            16 => Some(Channel::AN016),
            17 => Some(Channel::AN017),
            18 => Some(Channel::AN018),
            19 => Some(Channel::AN019),
            20 => Some(Channel::AN020),
            21 => Some(Channel::AN021),
            22 => Some(Channel::AN022),
            23 => Some(Channel::AN023),
            24 => Some(Channel::AN024),
            25 => Some(Channel::AN025),
            _ => None,
        }
    }

    /// The channel number.
    pub fn number(self) -> (r: u8)
        ensures
            r == self.spec_number(),
            is_channel_number(r as int),
    {
        match self {
            Channel::AN000 => 0,
            Channel::AN001 => 1,
            Channel::AN002 => 2,
            Channel::AN003 => 3,
            Channel::AN004 => 4,
            Channel::AN005 => 5,
            Channel::AN006 => 6,
            Channel::AN007 => 7,
            Channel::AN008 => 8,
            Channel::AN009 => 9,
            Channel::AN016 => 16,
            Channel::AN017 => 17,
            Channel::AN018 => 18,
            Channel::AN019 => 19,
            Channel::AN020 => 20,
            Channel::AN021 => 21,
            Channel::AN022 => 22,
            Channel::AN023 => 23,
            Channel::AN024 => 24,
            Channel::AN025 => 25,
        }
    }
}

/// The bit of channel `n` in the 32-bit view `ADANSA1:ADANSA0`.
pub open spec fn channel_bit(n: u8) -> u32 {
    1u32 << n
}

/// The `ADANSA0`/`ADANSA1` words that select exactly `channel`, clearing whatever
/// was selected before.
pub fn select(channel: Channel) -> (r: Result<(u16, u16), Error>)
    ensures
        r is Err <==> !is_channel_number(channel.spec_number() as int),
        r matches Ok((a0, a1)) ==> (a1 as u32) << 16u32 | a0 as u32 == channel_bit(channel.spec_number()),
{
    let n = channel.number();
    if !(n <= 9 || (16 <= n && n <= 25)) {
        return Err(Error::InvalidChannel);
    }
    if n < 16 {
        let a0: u16 = 1u16 << n;
        assert((0u16 as u32) << 16u32 | a0 as u32 == 1u32 << n) by (bit_vector)
            requires
                a0 == 1u16 << n,
                n < 16,
        ;
        Ok((a0, 0))
    } else {
        let m: u8 = n - 16;
        let a1: u16 = 1u16 << m;
        assert((a1 as u32) << 16u32 | 0u16 as u32 == 1u32 << n) by (bit_vector)
            requires
                a1 == 1u16 << m,
                m < 10,
                n == m + 16,
        ;
        Ok((0, a1))
    }
}

/// The address of `ADDRn` for a channel: the array is a flat run of 16-bit
/// registers at `ADDR_BASE + 2 * n`.
pub fn result_address(channel: Channel) -> (r: usize)
    ensures
        r == ADDR_BASE + 2 * channel.spec_number(),
{
    let n = channel.number();
    ADDR_BASE + 2 * (n as usize)
}

/// A polled single-scan ADC.
#[derive(Debug)]
pub struct Adc {
    resolution: Resolution,
}

impl Adc {
    /// The converter's resolution.
    pub closed spec fn spec_resolution(&self) -> Resolution {
        self.resolution
    }

    /// A converter configured with `config`.
    pub fn new(config: Config) -> (r: Self)
        ensures
            r.spec_resolution() == config.resolution,
    {
        Adc { resolution: config.resolution }
    }

    /// The largest value a conversion can return, for scaling.
    pub fn max_value(&self) -> (r: u16)
        ensures
            r == self.spec_resolution().spec_max_value(),
    {
        self.resolution.max_value()
    }
}

} // verus!
