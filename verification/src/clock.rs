//! Clock tree configuration.
//!
//! Out of reset the RA4M1 runs from MOCO (8 MHz). [`Config`] describes the target
//! clock tree; this module computes everything the bring-up sequence writes
//! (`SCKDIVCR`, `PLLCCR2`, `MOMCR`, `SCKSCR`) and the resulting [`Clocks`], a `Copy`
//! snapshot of the frequencies every other driver needs to compute its dividers.
//! Frequencies are in Hz.
use vstd::prelude::*;
use vstd::arithmetic::power2::{lemma2_to64, pow2};

verus! {

/// System clock source (`SCKSCR.CKSEL`).
#[derive(Clone, Copy, PartialEq, Eq, Debug, Structural)]
pub enum SysClk {
    /// High-speed on-chip oscillator.
    Hoco,
    /// Middle-speed on-chip oscillator (8 MHz). The reset default.
    Moco,
    /// Low-speed on-chip oscillator (32.768 kHz).
    Loco,
    /// Main clock oscillator (external crystal or clock input).
    MainOsc,
    /// Sub-clock oscillator (32.768 kHz watch crystal).
    SubOsc,
    /// PLL output.
    Pll,
}

impl SysClk {
    /// The `SCKSCR.CKSEL` encoding.
    pub open spec fn spec_cksel(self) -> u8 {
        match self {
            SysClk::Hoco => 0,
            SysClk::Moco => 1,
            SysClk::Loco => 2,
            SysClk::MainOsc => 3,
            SysClk::SubOsc => 4,
            SysClk::Pll => 5,
        }
    }

    /// The `SCKSCR.CKSEL` encoding.
    pub fn cksel(self) -> (r: u8)
        ensures
            r == self.spec_cksel(),
    {
        match self {
            SysClk::Hoco => 0,
            SysClk::Moco => 1,
            SysClk::Loco => 2,
            SysClk::MainOsc => 3,
            SysClk::SubOsc => 4,
            SysClk::Pll => 5,
        }
    }
}

/// Each clock source has its own `SCKSCR.CKSEL` code, and the codes run 0..=5.
pub proof fn lemma_cksel_codes_distinct(a: SysClk, b: SysClk)
    ensures
        a.spec_cksel() <= 5,
        a.spec_cksel() == b.spec_cksel() ==> a == b,
{
}

/// A `SCKDIVCR` divider field.
#[derive(Clone, Copy, PartialEq, Eq, Debug, Structural)]
pub enum Div {
    /// Divide by 1.
    Div1,
    /// Divide by 2.
    Div2,
    /// Divide by 4.
    Div4,
    /// Divide by 8.
    Div8,
    /// Divide by 16.
    Div16,
    /// Divide by 32.
    Div32,
    /// Divide by 64.
    Div64,
}

impl Div {
    /// The 3-bit field encoding: the base-2 logarithm of the divisor.
    pub open spec fn spec_bits(self) -> u32 {
        match self {
            Div::Div1 => 0,
            Div::Div2 => 1,
            Div::Div4 => 2,
            Div::Div8 => 3,
            Div::Div16 => 4,
            Div::Div32 => 5,
            Div::Div64 => 6,
        }
    }

    /// The division factor.
    pub open spec fn spec_divisor(self) -> u32 {
        match self {
            Div::Div1 => 1,
            Div::Div2 => 2,
            Div::Div4 => 4,
            Div::Div8 => 8,
            Div::Div16 => 16,
            Div::Div32 => 32,
            Div::Div64 => 64,
        }
    }

    /// The 3-bit field encoding.
    pub fn bits(self) -> (r: u32)
        ensures
            r == self.spec_bits(),
            r < 7,
    {
        match self {
            Div::Div1 => 0,
            Div::Div2 => 1,
            Div::Div4 => 2,
            Div::Div8 => 3,
            Div::Div16 => 4,
            Div::Div32 => 5,
            Div::Div64 => 6,
        }
    }

    /// The division factor, `1 << bits`.
    pub fn divisor(self) -> (r: u32)
        ensures
            r == self.spec_divisor(),
            r == 1u32 << self.spec_bits(),
            r >= 1,
    {
        let b = self.bits();
        assert(b == 0 ==> 1u32 << b == 1) by (bit_vector);
        assert(b == 1 ==> 1u32 << b == 2) by (bit_vector);
        assert(b == 2 ==> 1u32 << b == 4) by (bit_vector);
        assert(b == 3 ==> 1u32 << b == 8) by (bit_vector);
        assert(b == 4 ==> 1u32 << b == 16) by (bit_vector);
        assert(b == 5 ==> 1u32 << b == 32) by (bit_vector);
        assert(b == 6 ==> 1u32 << b == 64) by (bit_vector);
        1u32 << b
    }
}

/// PLL output divider (`PLLCCR2.PLODIV`).
#[derive(Clone, Copy, PartialEq, Eq, Debug, Structural)]
pub enum PllDiv {
    /// Divide the VCO output by 1.
    Div1,
    /// Divide the VCO output by 2.
    Div2,
    /// Divide the VCO output by 4.
    Div4,
}

impl PllDiv {
    /// The 2-bit field encoding.
    pub open spec fn spec_bits(self) -> u8 {
        match self {
            PllDiv::Div1 => 0,
            PllDiv::Div2 => 1,
            PllDiv::Div4 => 2,
        }
    }

    /// The division factor.
    pub open spec fn spec_divisor(self) -> u32 {
        match self {
            PllDiv::Div1 => 1,
            PllDiv::Div2 => 2,
            PllDiv::Div4 => 4,
        }
    }

    /// The 2-bit field encoding.
    pub fn bits(self) -> (r: u8)
        ensures
            r == self.spec_bits(),
    {
        match self {
            PllDiv::Div1 => 0,
            PllDiv::Div2 => 1,
            PllDiv::Div4 => 2,
        }
    }

    /// The division factor, `1 << bits`.
    pub fn divisor(self) -> (r: u32)
        ensures
            r == self.spec_divisor(),
            r == 1u32 << self.spec_bits(),
            r >= 1,
    {
        let r: u32 = match self {
            PllDiv::Div1 => 1,
            PllDiv::Div2 => 2,
            PllDiv::Div4 => 4,
        };
        assert(1u32 << 0u8 == 1 && 1u32 << 1u8 == 2 && 1u32 << 2u8 == 4) by (bit_vector);
        r
    }
}

/// Every divider, `SCKDIVCR`'s and the PLL's, divides by two to the power of its
/// field: `divisor == 2^bits`. Distinct dividers have distinct encodings.
pub proof fn lemma_dividers_are_powers_of_two(d: Div, e: Div, p: PllDiv, q: PllDiv)
    ensures
        d.spec_divisor() == pow2(d.spec_bits() as nat),
        p.spec_divisor() == pow2(p.spec_bits() as nat),
        d.spec_bits() == e.spec_bits() ==> d == e,
        p.spec_bits() == q.spec_bits() ==> p == q,
{
    lemma2_to64();
}

/// A PLL source runs at the main oscillator times the multiplier, divided by two to
/// the power of the `PLODIV` field.
pub proof fn lemma_pll_source_hz(c: Config)
    requires
        c.sysclk == SysClk::Pll,
        c.pll is Some,
    ensures
        c.spec_source_hz() == c.main_osc * c.pll.unwrap().mul / (pow2(c.pll.unwrap().div.spec_bits() as nat) as int),
{
    lemma_dividers_are_powers_of_two(Div::Div1, Div::Div1, c.pll.unwrap().div, c.pll.unwrap().div);
}

/// PLL settings. The output is `main_osc * mul / div`.
#[derive(Clone, Copy, PartialEq, Eq, Debug, Structural)]
pub struct Pll {
    /// Multiplication factor, 2..=31. Written to `PLLCCR2.PLLMUL` as `mul - 1`.
    pub mul: u8,
    /// Output divider.
    pub div: PllDiv,
}

impl Pll {
    /// The `PLLCCR2` value: `PLLMUL = mul - 1` in bits 0..=4, `PLODIV` in bits 6..=7.
    pub fn pllccr2(&self) -> (r: u8)
        requires
            2 <= self.mul <= 31,
        ensures
            r == ((self.mul - 1) as u8 | (self.div.spec_bits() << 6u8)),
            r & 0x1f == self.mul - 1,
            (r >> 6u8) == self.div.spec_bits(),
    {
        let m: u8 = self.mul - 1;
        let d = self.div.bits();
        assert(d <= 2);
        let r = m | (d << 6u8);
        assert(r & 0x1f == m && (r >> 6u8) == d) by (bit_vector)
            requires
                r == m | (d << 6u8),
                m < 31,
                d <= 2,
        ;
        r
    }
}

/// What the main clock oscillator is connected to.
#[derive(Clone, Copy, PartialEq, Eq, Debug, Structural)]
pub enum MainOscKind {
    /// A crystal or ceramic resonator across XTAL/EXTAL.
    Resonator,
    /// A square wave driven into EXTAL.
    ExternalClock,
}

/// Clock tree configuration.
#[derive(Clone, Copy, PartialEq, Eq, Debug, Structural)]
pub struct Config {
    /// Which source drives ICLK.
    pub sysclk: SysClk,
    /// Frequency of the crystal / external clock on the main oscillator, in Hz.
    pub main_osc: u32,
    /// Whether the main oscillator drives a resonator or takes a clock input.
    pub main_osc_kind: MainOscKind,
    /// PLL settings. Required when `sysclk` is [`SysClk::Pll`]; the PLL always takes
    /// the main oscillator as its source on this part.
    pub pll: Option<Pll>,
    /// HOCO frequency in Hz (24, 32, 48 or 64 MHz, fixed by `OFS1.HOCOFRQ1`).
    pub hoco: u32,
    /// ICLK divider (CPU, DTC, flash).
    pub ick: Div,
    /// PCLKA divider (SPI, SCI, GPT).
    pub pcka: Div,
    /// PCLKB divider (SCI, IIC, AGT and most other peripherals).
    pub pckb: Div,
    /// PCLKC divider (ADC sampling clock).
    pub pckc: Div,
    /// PCLKD divider (ADC, GPT).
    pub pckd: Div,
    /// FCLK divider (flash programming).
    pub fck: Div,
}

impl Default for Config {
    fn default() -> (r: Self)
        ensures
            r == Config::spec_moco(),
    {
        Self::moco()
    }
}

/// Frozen clock frequencies, in Hz.
///
/// Produced only by [`Config::clocks`], so a `Clocks` value always describes what a
/// configuration yields.
#[derive(Clone, Copy, PartialEq, Eq, Debug, Structural)]
pub struct Clocks {
    iclk: u32,
    pclka: u32,
    pclkb: u32,
    pclkc: u32,
    pclkd: u32,
    fclk: u32,
}

impl Config {
    /// The reset configuration.
    pub open spec fn spec_moco() -> Config {
        Config {
            sysclk: SysClk::Moco,
            main_osc: 12_000_000,
            main_osc_kind: MainOscKind::Resonator,
            pll: None,
            hoco: 48_000_000,
            ick: Div::Div1,
            pcka: Div::Div1,
            pckb: Div::Div1,
            pckc: Div::Div1,
            pckd: Div::Div1,
            fck: Div::Div1,
        }
    }

    /// The reset configuration: MOCO at 8 MHz, every divider at 1.
    pub fn moco() -> (r: Self)
        ensures
            r == Config::spec_moco(),
    {
        Config {
            sysclk: SysClk::Moco,
            main_osc: 12_000_000,
            main_osc_kind: MainOscKind::Resonator,
            pll: None,
            hoco: 48_000_000,
            ick: Div::Div1,
            pcka: Div::Div1,
            pckb: Div::Div1,
            pckc: Div::Div1,
            pckd: Div::Div1,
            fck: Div::Div1,
        }
    }

    /// The Arduino Uno R4 configuration: 12 MHz crystal, PLL x8 /2, 48 MHz ICLK.
    pub open spec fn spec_uno_r4() -> Config {
        Config {
            sysclk: SysClk::Pll,
            main_osc: 12_000_000,
            main_osc_kind: MainOscKind::Resonator,
            pll: Some(Pll { mul: 8, div: PllDiv::Div2 }),
            hoco: 48_000_000,
            ick: Div::Div1,
            pcka: Div::Div1,
            pckb: Div::Div2,
            pckc: Div::Div2,
            pckd: Div::Div1,
            fck: Div::Div2,
        }
    }

    /// The Arduino Uno R4 configuration: 12 MHz crystal, PLL x8 /2, 48 MHz ICLK.
    ///
    /// ICLK, PCLKA and PCLKD run at 48 MHz; PCLKB, PCLKC and FCLK at 24 MHz.
    pub fn uno_r4() -> (r: Self)
        ensures
            r == Config::spec_uno_r4(),
    {
        Config {
            sysclk: SysClk::Pll,
            main_osc: 12_000_000,
            main_osc_kind: MainOscKind::Resonator,
            pll: Some(Pll { mul: 8, div: PllDiv::Div2 }),
            hoco: 48_000_000,
            ick: Div::Div1,
            pcka: Div::Div1,
            pckb: Div::Div2,
            pckc: Div::Div2,
            pckd: Div::Div1,
            fck: Div::Div2,
        }
    }

    /// The PLL output: the main oscillator multiplied by `mul`, then divided by
    /// `div`.
    pub open spec fn pll_hz(self, pll: Pll) -> int {
        self.main_osc as int * pll.mul as int / pll.div.spec_divisor() as int
    }

    /// The source frequency is representable in 32 bits.
    pub open spec fn source_fits(self) -> bool {
        self.sysclk == SysClk::Pll && self.pll is Some ==> self.pll_hz(self.pll.unwrap()) <= u32::MAX
    }

    /// Frequency of the selected system clock source, before `SCKDIVCR`.
    ///
    /// `SysClk::Pll` without PLL settings gives 0; [`Config::is_valid`] rejects it.
    pub open spec fn spec_source_hz(self) -> int {
        match self.sysclk {
            SysClk::Hoco => self.hoco as int,
            SysClk::Moco => 8_000_000,
            SysClk::Loco => 32_768,
            SysClk::MainOsc => self.main_osc as int,
            SysClk::SubOsc => 32_768,
            SysClk::Pll => match self.pll {
                Some(pll) => self.pll_hz(pll),
                None => 0,
            },
        }
    }

    /// Frequency of the selected system clock source, before `SCKDIVCR`.
    pub fn source_hz(&self) -> (r: u32)
        requires
            self.source_fits(),
        ensures
            r == self.spec_source_hz(),
    {
        match self.sysclk {
            SysClk::Hoco => self.hoco,
            SysClk::Moco => 8_000_000,
            SysClk::Loco => 32_768,
            SysClk::MainOsc => self.main_osc,
            SysClk::SubOsc => 32_768,
            SysClk::Pll => match self.pll {
                Some(pll) => {
                    let osc: u64 = self.main_osc as u64;
                    let mul: u64 = pll.mul as u64;
                    assert(osc * mul <= 0xffff_ffff * 0xff) by (nonlinear_arith)
                        requires
                            osc <= 0xffff_ffff,
                            mul <= 0xff,
                    ;
                    let product: u64 = osc * mul;
                    (product / pll.div.divisor() as u64) as u32
                },
                // `is_valid` rejects this combination; a hand-built configuration that
                // reaches it gets a nonsense frequency rather than a wrong one.
                None => 0,
            },
        }
    }

    /// The configuration can be applied: a PLL source comes with PLL settings whose
    /// multiplier is in 2..=31.
    pub open spec fn spec_is_valid(self) -> bool {
        self.sysclk == SysClk::Pll ==> (self.pll is Some && 2 <= self.pll.unwrap().mul <= 31)
    }

    /// Can the configuration be applied? Applying one that is not is a programming
    /// error: `SysClk::Pll` selected without PLL settings, or a PLL multiplier
    /// outside 2..=31.
    pub fn is_valid(&self) -> (r: bool)
        ensures
            r == self.spec_is_valid(),
    {
        match self.sysclk {
            SysClk::Pll => match self.pll {
                Some(pll) => pll.mul >= 2 && pll.mul <= 31,
                None => false,
            },
            _ => true,
        }
    }

    /// The frequencies this configuration yields.
    pub closed spec fn spec_clocks(self) -> Clocks {
        let s = self.spec_source_hz();
        Clocks {
            iclk: (s / self.ick.spec_divisor() as int) as u32,
            pclka: (s / self.pcka.spec_divisor() as int) as u32,
            pclkb: (s / self.pckb.spec_divisor() as int) as u32,
            pclkc: (s / self.pckc.spec_divisor() as int) as u32,
            pclkd: (s / self.pckd.spec_divisor() as int) as u32,
            fclk: (s / self.fck.spec_divisor() as int) as u32,
        }
    }

    /// The frequencies this configuration yields: the source divided by each
    /// divider.
    pub fn clocks(&self) -> (r: Clocks)
        requires
            self.source_fits(),
        ensures
            r == self.spec_clocks(),
            r.spec_iclk() == self.spec_source_hz() / self.ick.spec_divisor() as int,
            r.spec_pclka() == self.spec_source_hz() / self.pcka.spec_divisor() as int,
            r.spec_pclkb() == self.spec_source_hz() / self.pckb.spec_divisor() as int,
            r.spec_pclkc() == self.spec_source_hz() / self.pckc.spec_divisor() as int,
            r.spec_pclkd() == self.spec_source_hz() / self.pckd.spec_divisor() as int,
            r.spec_fclk() == self.spec_source_hz() / self.fck.spec_divisor() as int,
    {
        let s = self.source_hz();
        Clocks {
            iclk: s / self.ick.divisor(),
            pclka: s / self.pcka.divisor(),
            pclkb: s / self.pckb.divisor(),
            pclkc: s / self.pckc.divisor(),
            pclkd: s / self.pckd.divisor(),
            fclk: s / self.fck.divisor(),
        }
    }

    /// Does ICLK exceed 32 MHz? Then the operating power mode and the flash wait
    /// state have to be raised before the clock speeds up.
    pub fn needs_high_speed_mode(&self) -> (r: bool)
        requires
            self.source_fits(),
        ensures
            r == (self.spec_source_hz() / self.ick.spec_divisor() as int > 32_000_000),
    {
        let iclk = self.source_hz() / self.ick.divisor();
        iclk > 32_000_000
    }

    /// The `SCKDIVCR` value: FCK in bits 28..=30, ICK in 24..=26, PCKA in 12..=14,
    /// PCKB in 8..=10, PCKC in 4..=6 and PCKD in 0..=2.
    pub open spec fn spec_sckdivcr(self) -> u32 {
        (self.fck.spec_bits() << 28u32) | (self.ick.spec_bits() << 24u32) | (self.pcka.spec_bits() << 12u32) | (
        self.pckb.spec_bits() << 8u32) | (self.pckc.spec_bits() << 4u32) | self.pckd.spec_bits()
    }

    /// The `SCKDIVCR` value. Each divider can be read back from its own field.
    pub fn sckdivcr(&self) -> (r: u32)
        ensures
            r == self.spec_sckdivcr(),
            (r >> 28u32) & 7 == self.fck.spec_bits(),
            (r >> 24u32) & 7 == self.ick.spec_bits(),
            (r >> 12u32) & 7 == self.pcka.spec_bits(),
            (r >> 8u32) & 7 == self.pckb.spec_bits(),
            (r >> 4u32) & 7 == self.pckc.spec_bits(),
            r & 7 == self.pckd.spec_bits(),
    {
        let f = self.fck.bits();
        let i = self.ick.bits();
        let a = self.pcka.bits();
        let b = self.pckb.bits();
        let c = self.pckc.bits();
        let d = self.pckd.bits();
        let r = (f << 28u32) | (i << 24u32) | (a << 12u32) | (b << 8u32) | (c << 4u32) | d;
        assert((r >> 28u32) & 7 == f && (r >> 24u32) & 7 == i && (r >> 12u32) & 7 == a && (r >> 8u32) & 7 == b
            && (r >> 4u32) & 7 == c && r & 7 == d) by (bit_vector)
            requires
                r == (f << 28u32) | (i << 24u32) | (a << 12u32) | (b << 8u32) | (c << 4u32) | d,
                f < 8,
                i < 8,
                a < 8,
                b < 8,
                c < 8,
                d < 8,
        ;
        r
    }

    /// The `MOMCR` bits: `MOSEL` (external clock input rather than a resonator) and
    /// `MODRV1` (a main oscillator below 10 MHz).
    pub fn momcr(&self) -> (r: (bool, bool))
        ensures
            r.0 == (self.main_osc_kind == MainOscKind::ExternalClock),
            r.1 == (self.main_osc < 10_000_000),
    {
        let mosel = match self.main_osc_kind {
            MainOscKind::ExternalClock => true,
            MainOscKind::Resonator => false,
        };
        (mosel, self.main_osc < 10_000_000)
    }

    /// Is the source frequency representable in 32 bits? Only a PLL source can
    /// exceed it.
    pub fn source_in_range(&self) -> (r: bool)
        ensures
            r == self.source_fits(),
    {
        match self.sysclk {
            SysClk::Pll => match self.pll {
                Some(pll) => {
                    let osc: u64 = self.main_osc as u64;
                    let mul: u64 = pll.mul as u64;
                    assert(osc * mul <= 0xffff_ffff * 0xff) by (nonlinear_arith)
                        requires
                            osc <= 0xffff_ffff,
                            mul <= 0xff,
                    ;
                    let product: u64 = osc * mul;
                    product / (pll.div.divisor() as u64) <= u32::MAX as u64
                },
                None => true,
            },
            _ => true,
        }
    }

    /// What applying the configuration does, in the order the bring-up sequence
    /// does it: raise the power mode and flash wait state when ICLK will exceed
    /// 32 MHz, start the oscillators the source needs, program the dividers, and
    /// switch the system clock source last.
    pub fn freeze(&self) -> (r: FreezePlan)
        requires
            self.spec_is_valid(),
            self.source_fits(),
        ensures
            r.high_speed_mode == (self.spec_source_hz() / self.ick.spec_divisor() as int > 32_000_000),
            r.momcr is Some <==> (self.sysclk == SysClk::MainOsc || self.sysclk == SysClk::Pll),
            r.momcr matches Some(m) ==> {
                &&& ((m >> 6u8) & 1 == 1) == (self.main_osc_kind == MainOscKind::ExternalClock)
                &&& ((m >> 3u8) & 1 == 1) == (self.main_osc < 10_000_000)
                &&& m & !0x48u8 == 0
            },
            r.pllccr2 is Some <==> self.sysclk == SysClk::Pll,
            r.pllccr2 matches Some(v) ==> v == ((self.pll.unwrap().mul - 1) as u8 | (self.pll.unwrap().div.spec_bits()
                << 6u8)),
            r.pllccr2 matches Some(v) ==> v & 0x1f == self.pll.unwrap().mul - 1 && v >> 6u8
                == self.pll.unwrap().div.spec_bits(),
            r.hoco == (self.sysclk == SysClk::Hoco),
            r.sckdivcr == self.spec_sckdivcr(),
            r.cksel == self.sysclk.spec_cksel(),
            r.clocks == self.spec_clocks(),
    {
        let momcr = match self.sysclk {
            SysClk::MainOsc | SysClk::Pll => {
                let (mosel, modrv1) = self.momcr();
                let sel: u8 = if mosel { 1 } else { 0 };
                let drv: u8 = if modrv1 { 1 } else { 0 };
                let m = (sel << 6u8) | (drv << 3u8);
                assert((m >> 6u8) & 1 == sel && (m >> 3u8) & 1 == drv && m & !0x48u8 == 0) by (bit_vector)
                    requires
                        m == (sel << 6u8) | (drv << 3u8),
                        sel <= 1,
                        drv <= 1,
                ;
                Some(m)
            },
            _ => None,
        };
        let pllccr2 = match self.sysclk {
            SysClk::Pll => match self.pll {
                Some(pll) => Some(pll.pllccr2()),
                None => None,
            },
            _ => None,
        };
        FreezePlan {
            high_speed_mode: self.needs_high_speed_mode(),
            momcr,
            pllccr2,
            hoco: self.sysclk == SysClk::Hoco,
            sckdivcr: self.sckdivcr(),
            cksel: self.sysclk.cksel(),
            clocks: self.clocks(),
        }
    }
}

/// The steps of applying a [`Config`], and the frequencies that result.
#[derive(Clone, Copy, PartialEq, Eq, Debug, Structural)]
pub struct FreezePlan {
    /// ICLK will exceed 32 MHz: raise the operating power mode (`OPCCR`) and the
    /// flash wait state (`MEMWAIT`) before anything speeds up.
    pub high_speed_mode: bool,
    /// Start the main oscillator, writing this `MOMCR` value while it is still
    /// stopped: `MOSEL` (bit 6) for an external clock input, `MODRV1` (bit 3) below
    /// 10 MHz.
    pub momcr: Option<u8>,
    /// Then start the PLL, writing this `PLLCCR2` value while it is still stopped.
    pub pllccr2: Option<u8>,
    /// Start HOCO.
    pub hoco: bool,
    /// The `SCKDIVCR` value.
    pub sckdivcr: u32,
    /// The `SCKSCR.CKSEL` value, written last.
    pub cksel: u8,
    /// The frequencies once the switch is done.
    pub clocks: Clocks,
}

impl Clocks {
    /// CPU / system clock.
    pub closed spec fn spec_iclk(self) -> u32 {
        self.iclk
    }

    /// Peripheral clock A.
    pub closed spec fn spec_pclka(self) -> u32 {
        self.pclka
    }

    /// Peripheral clock B.
    pub closed spec fn spec_pclkb(self) -> u32 {
        self.pclkb
    }

    /// Peripheral clock C.
    pub closed spec fn spec_pclkc(self) -> u32 {
        self.pclkc
    }

    /// Peripheral clock D.
    pub closed spec fn spec_pclkd(self) -> u32 {
        self.pclkd
    }

    /// Flash clock.
    pub closed spec fn spec_fclk(self) -> u32 {
        self.fclk
    }

    /// CPU / system clock.
    pub fn iclk(&self) -> (r: u32)
        ensures
            r == self.spec_iclk(),
    {
        self.iclk
    }

    /// Peripheral clock A: SPI, SCI, GPT.
    pub fn pclka(&self) -> (r: u32)
        ensures
            r == self.spec_pclka(),
    {
        self.pclka
    }

    /// Peripheral clock B: SCI, IIC, AGT and most other peripherals.
    pub fn pclkb(&self) -> (r: u32)
        ensures
            r == self.spec_pclkb(),
    {
        self.pclkb
    }

    /// Peripheral clock C: ADC conversion clock.
    pub fn pclkc(&self) -> (r: u32)
        ensures
            r == self.spec_pclkc(),
    {
        self.pclkc
    }

    /// Peripheral clock D: ADC, GPT.
    pub fn pclkd(&self) -> (r: u32)
        ensures
            r == self.spec_pclkd(),
    {
        self.pclkd
    }

    /// Flash clock.
    pub fn fclk(&self) -> (r: u32)
        ensures
            r == self.spec_fclk(),
    {
        self.fclk
    }
}

} // verus!
