//! SPI master on the SPI (RSPI) peripherals: configuration, the bit rate solver,
//! and the per-frame decisions of the polled driver.
use vstd::prelude::*;
use vstd::arithmetic::power2::{lemma2_to64, pow2};
use crate::clock::Clocks;
use crate::gpio::AlternatePin;

verus! {

/// SPI bus errors.
#[derive(Clone, Copy, PartialEq, Eq, Debug, Structural)]
pub enum Error {
    /// A frame arrived before the previous one was read.
    Overrun,
    /// Another master drove `SSL` while we were driving the bus.
    ModeFault,
    /// Parity error on the received frame.
    Parity,
    /// The peripheral did not complete a frame in time.
    Timeout,
    /// The requested bit rate cannot be produced from the current PCLKA.
    UnsupportedFrequency,
}

impl Error {
    /// A short human-readable description.
    pub fn description(&self) -> (r: &'static str)
        ensures
            r@ == match self {
                Error::Overrun => "receive overrun"@,
                Error::ModeFault => "mode fault"@,
                Error::Parity => "parity error"@,
                Error::Timeout => "transfer timed out"@,
                Error::UnsupportedFrequency => "bit rate not reachable from the current PCLKA"@,
            },
    {
        match self {
            Error::Overrun => "receive overrun",
            Error::ModeFault => "mode fault",
            Error::Parity => "parity error",
            Error::Timeout => "transfer timed out",
            Error::UnsupportedFrequency => "bit rate not reachable from the current PCLKA",
        }
    }
}

/// Bit order within a frame.
#[derive(Clone, Copy, PartialEq, Eq, Debug, Default, Structural)]
pub enum BitOrder {
    /// Most significant bit first. What almost every SPI device expects.
    #[default]
    MsbFirst,
    /// Least significant bit first.
    LsbFirst,
}

/// Clock polarity.
#[derive(Clone, Copy, PartialEq, Eq, Debug, Structural)]
pub enum Polarity {
    /// SCK idles low.
    IdleLow,
    /// SCK idles high.
    IdleHigh,
}

/// Clock phase.
#[derive(Clone, Copy, PartialEq, Eq, Debug, Structural)]
pub enum Phase {
    /// Data is captured on the first clock transition.
    CaptureOnFirstTransition,
    /// Data is captured on the second clock transition.
    CaptureOnSecondTransition,
}

/// Clock polarity and phase.
#[derive(Clone, Copy, PartialEq, Eq, Debug, Structural)]
pub struct Mode {
    /// Clock polarity.
    pub polarity: Polarity,
    /// Clock phase.
    pub phase: Phase,
}

/// Bus configuration.
#[derive(Clone, Copy, PartialEq, Eq, Debug, Structural)]
pub struct Config {
    /// Clock polarity and phase.
    pub mode: Mode,
    /// Target SCK frequency in Hz. The achieved rate is the closest available that
    /// does not exceed this.
    pub frequency: u32,
    /// Bit order.
    pub bit_order: BitOrder,
}

impl Default for Config {
    fn default() -> (r: Self)
        ensures
            r == Config::spec_mode(Polarity::IdleLow, Phase::CaptureOnFirstTransition, 1_000_000),
    {
        Self::mode0(1_000_000)
    }
}

impl Config {
    /// MSB-first at `frequency` with the given clock polarity and phase.
    pub open spec fn spec_mode(polarity: Polarity, phase: Phase, frequency: u32) -> Config {
        Config { mode: Mode { polarity, phase }, frequency, bit_order: BitOrder::MsbFirst }
    }

    /// SPI mode 0 (CPOL = 0, CPHA = 0) at `frequency`.
    pub fn mode0(frequency: u32) -> (r: Self)
        ensures
            r == Config::spec_mode(Polarity::IdleLow, Phase::CaptureOnFirstTransition, frequency),
    {
        Config {
            mode: Mode { polarity: Polarity::IdleLow, phase: Phase::CaptureOnFirstTransition },
            frequency,
            bit_order: BitOrder::MsbFirst,
        }
    }

    /// SPI mode 1 (CPOL = 0, CPHA = 1) at `frequency`.
    pub fn mode1(frequency: u32) -> (r: Self)
        ensures
            r == Config::spec_mode(Polarity::IdleLow, Phase::CaptureOnSecondTransition, frequency),
    {
        Config {
            mode: Mode { polarity: Polarity::IdleLow, phase: Phase::CaptureOnSecondTransition },
            frequency,
            bit_order: BitOrder::MsbFirst,
        }
    }

    /// SPI mode 2 (CPOL = 1, CPHA = 0) at `frequency`.
    pub fn mode2(frequency: u32) -> (r: Self)
        ensures
            r == Config::spec_mode(Polarity::IdleHigh, Phase::CaptureOnFirstTransition, frequency),
    {
        Config {
            mode: Mode { polarity: Polarity::IdleHigh, phase: Phase::CaptureOnFirstTransition },
            frequency,
            bit_order: BitOrder::MsbFirst,
        }
    }

    /// SPI mode 3 (CPOL = 1, CPHA = 1) at `frequency`.
    pub fn mode3(frequency: u32) -> (r: Self)
        ensures
            r == Config::spec_mode(Polarity::IdleHigh, Phase::CaptureOnSecondTransition, frequency),
    {
        Config {
            mode: Mode { polarity: Polarity::IdleHigh, phase: Phase::CaptureOnSecondTransition },
            frequency,
            bit_order: BitOrder::MsbFirst,
        }
    }

    /// Send the least significant bit of each frame first.
    pub fn lsb_first(self) -> (r: Self)
        ensures
            r == (Config { bit_order: BitOrder::LsbFirst, ..self }),
    {
        Config { bit_order: BitOrder::LsbFirst, ..self }
    }

    /// The `SPCMD0` value for an 8-bit frame at `rate`: `CPHA` (bit 0), `CPOL`
    /// (bit 1), `BRDV` (bits 2..=3), `SSLA` 0 (bits 4..=6), `SPB` = 0b0100
    /// (bits 8..=11), `LSBF` (bit 12), and no inter-frame delays (bits 13..=15).
    pub fn spcmd0(&self, rate: BitRate) -> (r: u16)
        requires
            rate.brdv < 4,
        ensures
            ((r & 1) == 1) == (self.mode.phase == Phase::CaptureOnSecondTransition),
            ((r >> 1u16) & 1 == 1) == (self.mode.polarity == Polarity::IdleHigh),
            (r >> 2u16) & 3 == rate.brdv,
            (r >> 4u16) & 7 == 0,
            (r >> 8u16) & 0xf == SPB_8_BIT,
            ((r >> 12u16) & 1 == 1) == (self.bit_order == BitOrder::LsbFirst),
            r >> 13u16 == 0,
    {
        let cpha: u16 = if self.mode.phase == Phase::CaptureOnSecondTransition { 1 } else { 0 };
        let cpol: u16 = if self.mode.polarity == Polarity::IdleHigh { 1 } else { 0 };
        let brdv: u16 = rate.brdv as u16;
        let lsbf: u16 = if self.bit_order == BitOrder::LsbFirst { 1 } else { 0 };
        let r = cpha | (cpol << 1u16) | (brdv << 2u16) | (0b0100u16 << 8u16) | (lsbf << 12u16);
        assert((r & 1) == cpha && (r >> 1u16) & 1 == cpol && (r >> 2u16) & 3 == brdv && (r >> 4u16) & 7 == 0 && (r
            >> 8u16) & 0xf == 0b0100 && (r >> 12u16) & 1 == lsbf && r >> 13u16 == 0) by (bit_vector)
            requires
                r == cpha | (cpol << 1u16) | (brdv << 2u16) | (0b0100u16 << 8u16) | (lsbf << 12u16),
                cpha <= 1,
                cpol <= 1,
                brdv < 4,
                lsbf <= 1,
        ;
        r
    }
}

/// `SPCMD0.SPB` value for an 8-bit frame. Encodings 0b0100..0b0111 all mean 8 bits.
pub const SPB_8_BIT: u16 = 0b0100;

/// Pins that can be handed to an [`Spi`]: `(sck, mosi, miso)`, `(sck, mosi)` when
/// the bus is write-only, or `()` when the pins are managed elsewhere.
pub trait Pins<SPI> {}

impl<SPI> Pins<SPI> for () {}

impl<SPI, A: AlternatePin, B: AlternatePin> Pins<SPI> for (A, B) {}

impl<SPI, A: AlternatePin, B: AlternatePin, C: AlternatePin> Pins<SPI> for (A, B, C) {}

/// `a / b` rounded up.
pub open spec fn ceil_div(a: int, b: int) -> int {
    a / b + if a % b == 0 { 0int } else { 1int }
}

/// `a.div_ceil(b)`.
pub fn div_ceil(a: u64, b: u64) -> (r: u64)
    requires
        b > 0,
    ensures
        r == ceil_div(a as int, b as int),
{
    let q = a / b;
    if a % b == 0 {
        q
    } else {
        assert(q < a) by (nonlinear_arith)
            requires
                q == a / b,
                b > 0,
                a % b != 0,
        {
            vstd::arithmetic::div_mod::lemma_fundamental_div_mod(a as int, b as int);
        }
        q + 1
    }
}

/// `SPBR` and `SPCMD0.BRDV`. SCK is `PCLKA / (2 * (spbr + 1) * 2^brdv)`.
#[derive(Clone, Copy, PartialEq, Eq, Debug, Structural)]
pub struct BitRate {
    /// `SPBR`.
    pub spbr: u8,
    /// `SPCMD0.BRDV`.
    pub brdv: u8,
}

/// `2 * 2^brdv`: everything SCK is divided by except `SPBR + 1`.
pub open spec fn spi_base(brdv: int) -> int {
    if brdv == 0 {
        2
    } else if brdv == 1 {
        4
    } else if brdv == 2 {
        8
    } else {
        16
    }
}

/// The fastest `SPBR` for `brdv` that does not exceed `frequency`, with the rate
/// it produces.
pub open spec fn spi_candidate(pclka: int, frequency: int, brdv: int) -> Option<(BitRate, int)> {
    let base = spi_base(brdv);
    let n = ceil_div(pclka, base * frequency);
    if frequency >= 1 && 1 <= n <= 256 {
        Some((BitRate { spbr: (n - 1) as u8, brdv: brdv as u8 }, pclka / (base * n)))
    } else {
        None
    }
}

/// The rate a setting produces from `pclka`.
pub open spec fn spi_rate(pclka: int, r: BitRate) -> int {
    pclka / (spi_base(r.brdv as int) * (r.spbr + 1))
}

/// `brdv` is the first of the four dividers whose candidate is at least as fast as
/// every other candidate.
pub open spec fn is_fastest(pclka: int, frequency: int, brdv: int, limit: int) -> bool {
    &&& 0 <= brdv < limit
    &&& spi_candidate(pclka, frequency, brdv) is Some
    &&& forall|d: int|
        #![trigger spi_candidate(pclka, frequency, d)]
        0 <= d < limit && spi_candidate(pclka, frequency, d) is Some ==> spi_candidate(pclka, frequency, d).unwrap().1
            <= spi_candidate(pclka, frequency, brdv).unwrap().1
    &&& forall|d: int|
        #![trigger spi_candidate(pclka, frequency, d)]
        0 <= d < brdv && spi_candidate(pclka, frequency, d) is Some ==> spi_candidate(pclka, frequency, d).unwrap().1
            < spi_candidate(pclka, frequency, brdv).unwrap().1
}

/// Pick the fastest setting that does not exceed `frequency`.
///
/// Running an SPI slave faster than it is rated for is a hardware fault, so the
/// search rounds down rather than to nearest. Returns `None` for a zero frequency
/// and when no divider fits.
pub fn calc_bitrate(pclka: u32, frequency: u32) -> (r: Option<BitRate>)
    ensures
        frequency == 0 ==> r is None,
        r is None <==> forall|d: int| 0 <= d < 4 ==> #[trigger] spi_candidate(pclka as int, frequency as int, d) is None,
        r matches Some(br) ==> {
            &&& is_fastest(pclka as int, frequency as int, br.brdv as int, 4)
            &&& spi_candidate(pclka as int, frequency as int, br.brdv as int).unwrap().0 == br
        },
        r matches Some(br) ==> {
            &&& br.brdv < 4
            &&& pclka <= frequency * sck_divisor(br.brdv as int, br.spbr as int + 1)
            &&& br.spbr == 0 || pclka > frequency * sck_divisor(br.brdv as int, br.spbr as int)
            &&& forall|d: int, m: int|
                0 <= d < br.brdv && 1 <= m <= 256 ==> pclka > frequency * #[trigger] sck_divisor(d, m)
        },
{
    if frequency == 0 {
        return None;
    }
    let ghost p = pclka as int;
    let ghost f = frequency as int;
    let mut best: Option<(BitRate, u32)> = None;
    let ghost mut best_d: int = 0;
    let mut brdv: u32 = 0;
    while brdv < 4
        invariant
            brdv <= 4,
            p == pclka as int,
            f == frequency as int,
            frequency >= 1,
            best is None <==> forall|d: int| 0 <= d < brdv ==> #[trigger] spi_candidate(p, f, d) is None,
            best matches Some((rate, hz)) ==> {
                &&& is_fastest(p, f, best_d, brdv as int)
                &&& spi_candidate(p, f, best_d).unwrap().0 == rate
                &&& hz == spi_candidate(p, f, best_d).unwrap().1
            },
        decreases 4 - brdv,
    {
        let base: u32 = if brdv == 0 {
            2
        } else if brdv == 1 {
            4
        } else if brdv == 2 {
            8
        } else {
            16
        };
        assert(base == spi_base(brdv as int));
        // spbr = pclka / (base * frequency) - 1, rounded up so we stay at or below
        // the requested rate. The product is taken in 64 bits, where it cannot
        // overflow.
        let den: u64 = base as u64 * frequency as u64;
        assert(den >= 1 && den <= 16 * 0xffff_ffff) by (nonlinear_arith)
            requires
                den == base * frequency,
                2 <= base <= 16,
                frequency >= 1,
        ;
        let n = div_ceil(pclka as u64, den);
        let ghost old_best = best;
        let ghost old_d = best_d;
        if n >= 1 && n <= 256 {
            let spbr = (n - 1) as u32;
            assert(base * (spbr + 1) <= 16 * 256 && base * (spbr + 1) >= 1) by (nonlinear_arith)
                requires
                    base <= 16,
                    base >= 1,
                    spbr + 1 <= 256,
                    spbr + 1 >= 1,
            ;
            let actual = pclka / (base * (spbr + 1));
            let rate = BitRate { spbr: spbr as u8, brdv: brdv as u8 };
            assert(spi_candidate(p, f, brdv as int) == Some((rate, actual as int)));
            let keep = match best {
                Some((_, best_hz)) => best_hz >= actual,
                None => false,
            };
            if !keep {
                best = Some((rate, actual));
                proof {
                    best_d = brdv as int;
                }
            }
            proof {
                if !keep {
                    assert forall|d: int|
                        #![trigger spi_candidate(p, f, d)]
                        0 <= d < brdv + 1 && spi_candidate(p, f, d) is Some implies spi_candidate(p, f, d).unwrap().1
                            <= spi_candidate(p, f, brdv as int).unwrap().1 && (d < brdv ==> spi_candidate(p, f, d).unwrap().1
                            < spi_candidate(p, f, brdv as int).unwrap().1) by {
                        if d < brdv {
                            assert(old_best is Some);
                            assert(spi_candidate(p, f, d).unwrap().1 <= spi_candidate(p, f, old_d).unwrap().1);
                        }
                    }
                } else {
                    assert forall|d: int|
                        #![trigger spi_candidate(p, f, d)]
                        0 <= d < brdv + 1 && spi_candidate(p, f, d) is Some implies spi_candidate(p, f, d).unwrap().1
                            <= spi_candidate(p, f, best_d).unwrap().1 by {
                        if d < brdv {
                        }
                    }
                }
            }
        } else {
            assert(spi_candidate(p, f, brdv as int) is None);
        }
        brdv = brdv + 1;
    }
    proof {
        if best is Some {
            lemma_candidate_sck(p, f, best_d);
            lemma_finer_dividers_fall_short(p, f, best_d);
        }
    }
    match best {
        Some((rate, _)) => Some(rate),
        None => None,
    }
}

/// What SCK is divided down from PCLKA by, by the hardware formula, with `BRDV` =
/// `brdv` and `SPBR + 1` = `n`: `2 * 2^brdv * n`.
pub open spec fn sck_divisor(brdv: int, n: int) -> int {
    2 * pow2(brdv as nat) * n
}

/// `ceil_div(a, b)` is the least count of `b` that covers `a`.
proof fn lemma_ceil_div_bounds(a: int, b: int)
    requires
        a >= 0,
        b >= 1,
    ensures
        ceil_div(a, b) * b >= a,
        ceil_div(a, b) >= 1 ==> (ceil_div(a, b) - 1) * b < a,
        ceil_div(a, b) >= 0,
{
    vstd::arithmetic::div_mod::lemma_fundamental_div_mod(a, b);
    let q = a / b;
    let r = a % b;
    assert(ceil_div(a, b) * b >= a && (ceil_div(a, b) >= 1 ==> (ceil_div(a, b) - 1) * b < a) && ceil_div(a, b) >= 0)
        by (nonlinear_arith)
        requires
            a == b * q + r,
            0 <= r < b,
            a >= 0,
            b >= 1,
            ceil_div(a, b) == q + if r == 0 { 0int } else { 1int },
    ;
}

/// `BRDV` = `brdv` divides by `2^brdv`, on top of the fixed divide-by-two.
pub proof fn lemma_spi_base(brdv: int)
    requires
        0 <= brdv < 4,
    ensures
        spi_base(brdv) == 2 * pow2(brdv as nat),
{
    lemma2_to64();
}

/// The setting chosen for a divider runs SCK at or below `frequency` by the
/// hardware formula, and one step less `SPBR` would run it faster.
pub proof fn lemma_candidate_sck(pclka: int, frequency: int, brdv: int)
    requires
        0 <= pclka,
        0 <= brdv < 4,
        spi_candidate(pclka, frequency, brdv) is Some,
    ensures
        ({
            let br = spi_candidate(pclka, frequency, brdv).unwrap().0;
            &&& br.brdv == brdv
            &&& pclka <= frequency * sck_divisor(br.brdv as int, br.spbr as int + 1)
            &&& br.spbr == 0 || pclka > frequency * sck_divisor(br.brdv as int, br.spbr as int)
        }),
{
    lemma_spi_base(brdv);
    let base = spi_base(brdv);
    let n = ceil_div(pclka, base * frequency);
    assert(base * frequency >= 1) by (nonlinear_arith)
        requires
            base >= 2,
            frequency >= 1,
    ;
    lemma_ceil_div_bounds(pclka, base * frequency);
    let br = spi_candidate(pclka, frequency, brdv).unwrap().0;
    assert(br.spbr as int + 1 == n);
    assert(pclka <= frequency * (base * n)) by (nonlinear_arith)
        requires
            n * (base * frequency) >= pclka,
    ;
    assert(n - 1 >= 1 ==> pclka > frequency * (base * (n - 1))) by (nonlinear_arith)
        requires
            n >= 1 ==> (n - 1) * (base * frequency) < pclka,
    ;
}

/// When the solver settles on divider `brdv`, no finer divider has any `SPBR` that
/// keeps SCK at or below `frequency`.
pub proof fn lemma_finer_dividers_fall_short(pclka: int, frequency: int, brdv: int)
    requires
        0 <= pclka,
        is_fastest(pclka, frequency, brdv, 4),
    ensures
        forall|d: int, m: int| 0 <= d < brdv && 1 <= m <= 256 ==> pclka > frequency * #[trigger] sck_divisor(d, m),
{
    let bc = spi_base(brdv);
    let nc = ceil_div(pclka, bc * frequency);
    assert(frequency >= 1);
    assert(bc * frequency >= 1) by (nonlinear_arith)
        requires
            bc >= 2,
            frequency >= 1,
    ;
    lemma_ceil_div_bounds(pclka, bc * frequency);
    assert forall|d: int, m: int| 0 <= d < brdv && 1 <= m <= 256 implies pclka > frequency * #[trigger] sck_divisor(d, m) by {
        lemma_spi_base(d);
        let bd = spi_base(d);
        let k: int = if brdv - d == 1 {
            2
        } else if brdv - d == 2 {
            4
        } else {
            8
        };
        assert(bc == bd * k && k >= 2);
        assert(bd * frequency >= 1) by (nonlinear_arith)
            requires
                bd >= 2,
                frequency >= 1,
        ;
        lemma_ceil_div_bounds(pclka, bd * frequency);
        let nd = ceil_div(pclka, bd * frequency);
        if spi_candidate(pclka, frequency, d) is Some {
            // The finer divider reaches a product no larger than the chosen one, so
            // it would be at least as fast, which `is_fastest` rules out.
            let np = nc * k;
            assert(np * (bd * frequency) >= pclka) by (nonlinear_arith)
                requires
                    nc * (bc * frequency) >= pclka,
                    bc == bd * k,
                    np == nc * k,
            ;
            assert(nd <= np) by (nonlinear_arith)
                requires
                    np * (bd * frequency) >= pclka,
                    nd >= 1 ==> (nd - 1) * (bd * frequency) < pclka,
                    nd >= 1,
                    bd * frequency >= 1,
            ;
            assert(bd * nd <= bc * nc) by (nonlinear_arith)
                requires
                    nd <= np,
                    np == nc * k,
                    bc == bd * k,
                    bd >= 2,
            ;
            assert(bd * nd >= 1) by (nonlinear_arith)
                requires
                    bd >= 2,
                    nd >= 1,
            ;
            vstd::arithmetic::div_mod::lemma_div_is_ordered_by_denominator(pclka, bd * nd, bc * nc);
            assert(false);
        }
        assert(1 <= nc <= 256);
        assert(pclka >= 1) by {
            if pclka == 0 {
                assert(nc == 0);
            }
        }
        assert(nd >= 1) by {
            if nd == 0 {
                assert(nd * (bd * frequency) == 0);
            }
        }
        assert(nd > 256);
        assert(pclka > frequency * (bd * m)) by (nonlinear_arith)
            requires
                (nd - 1) * (bd * frequency) < pclka,
                nd > 256,
                1 <= m <= 256,
                bd * frequency >= 1,
        ;
    }
}

/// Every candidate, and so every setting [`calc_bitrate`] returns, runs at or below
/// the requested frequency.
pub proof fn lemma_never_exceeds(pclka: int, frequency: int, brdv: int)
    requires
        0 <= pclka,
        0 <= brdv < 4,
        spi_candidate(pclka, frequency, brdv) is Some,
    ensures
        spi_candidate(pclka, frequency, brdv).unwrap().1 <= frequency,
        spi_rate(pclka, spi_candidate(pclka, frequency, brdv).unwrap().0) == spi_candidate(pclka, frequency, brdv).unwrap().1,
{
    let base = spi_base(brdv);
    let den = base * frequency;
    let n = ceil_div(pclka, den);
    assert(den >= 1) by (nonlinear_arith)
        requires
            den == base * frequency,
            base >= 2,
            frequency >= 1,
    ;
    vstd::arithmetic::div_mod::lemma_fundamental_div_mod(pclka, den);
    assert(pclka <= n * den) by (nonlinear_arith)
        requires
            pclka == den * (pclka / den) + pclka % den,
            0 <= pclka % den < den,
            n == pclka / den + if pclka % den == 0 { 0int } else { 1int },
    ;
    let y = base * n;
    assert(pclka <= frequency * y) by (nonlinear_arith)
        requires
            pclka <= n * den,
            den == base * frequency,
            y == base * n,
    ;
    assert(y >= 1) by (nonlinear_arith)
        requires
            base >= 2,
            n >= 1,
            y == base * n,
    ;
    vstd::arithmetic::div_mod::lemma_div_is_ordered(pclka, frequency * y, y);
    vstd::arithmetic::div_mod::lemma_div_multiples_vanish(frequency, y);
}

// --- Driver ----------------------------------------------------------------------

/// A polled SPI master: the channel and the pins it owns.
#[derive(Debug)]
pub struct Spi<SPI, PINS> {
    spi: SPI,
    pins: PINS,
}

/// [`calc_bitrate`] finds no setting.
pub open spec fn no_spi_setting(pclka: u32, frequency: u32) -> bool {
    forall|d: int|
        0 <= d < 4 ==> #[trigger] spi_candidate(pclka as int, frequency as int, d) is None
}

impl<SPI, PINS: Pins<SPI>> Spi<SPI, PINS> {
    /// Take the channel and pins for a master, returning the bit rate registers to
    /// program.
    ///
    /// Fails with [`Error::UnsupportedFrequency`] exactly when [`calc_bitrate`] finds
    /// no setting for the current PCLKA.
    pub fn new(spi: SPI, pins: PINS, config: Config, clocks: &Clocks) -> (r: Result<(Self, BitRate), Error>)
        ensures
            r is Err <==> no_spi_setting(clocks.spec_pclka(), config.frequency),
            r matches Err(e) ==> e == Error::UnsupportedFrequency,
            r matches Ok((d, _)) ==> d.spec_parts() == (spi, pins),
            r matches Ok((_, rate)) ==> {
                &&& is_fastest(clocks.spec_pclka() as int, config.frequency as int, rate.brdv as int, 4)
                &&& spi_candidate(clocks.spec_pclka() as int, config.frequency as int, rate.brdv as int).unwrap().0 == rate
            },
    {
        match calc_bitrate(clocks.pclka(), config.frequency) {
            Some(rate) => Ok((Spi { spi, pins }, rate)),
            None => Err(Error::UnsupportedFrequency),
        }
    }

    /// The peripheral and pins it owns.
    pub closed spec fn spec_parts(&self) -> (SPI, PINS) {
        (self.spi, self.pins)
    }

    /// Give back the peripheral and pins, as they were handed to `new`.
    pub fn release(self) -> (r: (SPI, PINS))
        ensures
            r == self.spec_parts(),
    {
        (self.spi, self.pins)
    }
}

/// `SPSR.SPRF`: a frame has been received.
pub const SPSR_SPRF: u8 = 0x80;
/// `SPSR.SPTEF`: the transmit buffer is empty.
pub const SPSR_SPTEF: u8 = 0x20;
/// `SPSR.UDRF`: underrun.
pub const SPSR_UDRF: u8 = 0x10;
/// `SPSR.PERF`: parity error.
pub const SPSR_PERF: u8 = 0x08;
/// `SPSR.MODF`: mode fault.
pub const SPSR_MODF: u8 = 0x04;
/// `SPSR.IDLNF`: a frame is still in the shift register.
pub const SPSR_IDLNF: u8 = 0x02;
/// `SPSR.OVRF`: overrun.
pub const SPSR_OVRF: u8 = 0x01;

/// The error a received frame reports, given the `SPSR` value read after it:
/// overrun first, then mode fault, then parity.
pub fn check_errors(spsr: u8) -> (r: Result<(), Error>)
    ensures
        spsr & SPSR_OVRF != 0 ==> r == Err::<(), Error>(Error::Overrun),
        spsr & SPSR_OVRF == 0 && spsr & SPSR_MODF != 0 ==> r == Err::<(), Error>(Error::ModeFault),
        spsr & SPSR_OVRF == 0 && spsr & SPSR_MODF == 0 && spsr & SPSR_PERF != 0 ==> r == Err::<(), Error>(Error::Parity),
        spsr & SPSR_OVRF == 0 && spsr & SPSR_MODF == 0 && spsr & SPSR_PERF == 0 ==> r is Ok,
{
    if spsr & SPSR_OVRF != 0 {
        return Err(Error::Overrun);
    }
    if spsr & SPSR_MODF != 0 {
        return Err(Error::ModeFault);
    }
    if spsr & SPSR_PERF != 0 {
        return Err(Error::Parity);
    }
    Ok(())
}

/// The `SPSR` value that clears the overrun, mode-fault, parity and underrun flags
/// (cleared by writing 0 after reading a 1) and keeps every other bit as read.
pub fn clear_errors(spsr: u8) -> (r: u8)
    ensures
        r == spsr & !(SPSR_OVRF | SPSR_MODF | SPSR_PERF | SPSR_UDRF),
        r & (SPSR_OVRF | SPSR_MODF | SPSR_PERF | SPSR_UDRF) == 0,
{
    let r = spsr & !(SPSR_OVRF | SPSR_MODF | SPSR_PERF | SPSR_UDRF);
    assert(r & (0x01u8 | 0x04u8 | 0x08u8 | 0x10u8) == 0) by (bit_vector)
        requires
            r == spsr & !(0x01u8 | 0x04u8 | 0x08u8 | 0x10u8),
    ;
    r
}

/// The frames a full-duplex transfer clocks: as many as the longer buffer.
pub fn transfer_len(read_len: usize, write_len: usize) -> (r: usize)
    ensures
        r == if read_len >= write_len { read_len } else { write_len },
{
    if read_len >= write_len {
        read_len
    } else {
        write_len
    }
}

/// The byte shifted out as frame `i` of a transfer: `write[i]`, or 0xFF past the
/// end of `write`, which keeps MOSI idle-high on a read-only tail.
pub fn transfer_out(write: &[u8], i: usize) -> (r: u8)
    ensures
        i < write@.len() ==> r == write@[i as int],
        i >= write@.len() ==> r == 0xFF,
{
    if i < write.len() {
        write[i]
    } else {
        0xFF
    }
}

} // verus!
