//! Asynchronous serial (UART) on the SCI peripherals: configuration, the baud
//! rate solver, and the receive/transmit status decisions of the polled driver.
use vstd::prelude::*;
use vstd::arithmetic::power2::{lemma2_to64, pow2};
use core::marker::PhantomData;
use crate::clock::Clocks;
use crate::gpio::{Alternate, AlternatePin, Pin};

verus! {

/// Number of data bits per character.
#[derive(Clone, Copy, PartialEq, Eq, Debug, Default, Structural)]
pub enum DataBits {
    /// 7 data bits.
    Seven,
    /// 8 data bits.
    #[default]
    Eight,
}

/// Parity checking and generation.
#[derive(Clone, Copy, PartialEq, Eq, Debug, Default, Structural)]
pub enum Parity {
    /// No parity bit.
    #[default]
    NoParity,
    /// Even parity.
    Even,
    /// Odd parity.
    Odd,
}

/// Number of stop bits.
#[derive(Clone, Copy, PartialEq, Eq, Debug, Default, Structural)]
pub enum StopBits {
    /// One stop bit.
    #[default]
    One,
    /// Two stop bits.
    Two,
}

/// UART configuration.
#[derive(Clone, Copy, PartialEq, Eq, Debug, Structural)]
pub struct Config {
    /// Bit rate in bits per second.
    pub baudrate: u32,
    /// Data bits per character.
    pub data_bits: DataBits,
    /// Parity.
    pub parity: Parity,
    /// Stop bits.
    pub stop_bits: StopBits,
    /// Enable the digital noise filter on RXD.
    pub noise_filter: bool,
}

impl Default for Config {
    fn default() -> (r: Self)
        ensures
            r == Config::spec_baud(115_200),
    {
        Self::baud(115_200)
    }
}

impl Config {
    /// 8N1 at `baudrate`, no noise filter.
    pub open spec fn spec_baud(baudrate: u32) -> Config {
        Config {
            baudrate,
            data_bits: DataBits::Eight,
            parity: Parity::NoParity,
            stop_bits: StopBits::One,
            noise_filter: false,
        }
    }

    /// 8N1 at `baudrate`.
    pub fn baud(baudrate: u32) -> (r: Self)
        ensures
            r == Config::spec_baud(baudrate),
    {
        Config {
            baudrate,
            data_bits: DataBits::Eight,
            parity: Parity::NoParity,
            stop_bits: StopBits::One,
            noise_filter: false,
        }
    }

    /// Set the number of data bits.
    pub fn data_bits(self, data_bits: DataBits) -> (r: Self)
        ensures
            r == (Config { data_bits, ..self }),
    {
        Config { data_bits, ..self }
    }

    /// Set the parity.
    pub fn parity(self, parity: Parity) -> (r: Self)
        ensures
            r == (Config { parity, ..self }),
    {
        Config { parity, ..self }
    }

    /// Set the number of stop bits.
    pub fn stop_bits(self, stop_bits: StopBits) -> (r: Self)
        ensures
            r == (Config { stop_bits, ..self }),
    {
        Config { stop_bits, ..self }
    }

    /// Enable the digital noise filter on RXD.
    pub fn noise_filter(self, enabled: bool) -> (r: Self)
        ensures
            r == (Config { noise_filter: enabled, ..self }),
    {
        Config { noise_filter: enabled, ..self }
    }

    /// The `SMR` value: asynchronous mode (`CM` clear), `CHR` for 7-bit characters,
    /// `PE`/`PM` for parity, `STOP` for two stop bits, no multi-processor mode, and
    /// the prescaler in `CKS`.
    pub fn smr(&self, cks: u8) -> (r: u8)
        requires
            cks < 4,
        ensures
            r & 3 == cks,
            (r >> 2u8) & 1 == 0,
            ((r >> 3u8) & 1 == 1) == (self.stop_bits == StopBits::Two),
            ((r >> 4u8) & 1 == 1) == (self.parity == Parity::Odd),
            ((r >> 5u8) & 1 == 1) == (self.parity != Parity::NoParity),
            ((r >> 6u8) & 1 == 1) == (self.data_bits == DataBits::Seven),
            r >> 7u8 == 0,
    {
        let stop: u8 = if self.stop_bits == StopBits::Two { 1 } else { 0 };
        let pm: u8 = if self.parity == Parity::Odd { 1 } else { 0 };
        let pe: u8 = if self.parity != Parity::NoParity { 1 } else { 0 };
        let chr: u8 = if self.data_bits == DataBits::Seven { 1 } else { 0 };
        let r = cks | (stop << 3u8) | (pm << 4u8) | (pe << 5u8) | (chr << 6u8);
        assert(r & 3 == cks && (r >> 2u8) & 1 == 0 && (r >> 3u8) & 1 == stop && (r >> 4u8) & 1 == pm && (r >> 5u8) & 1
            == pe && (r >> 6u8) & 1 == chr && r >> 7u8 == 0) by (bit_vector)
            requires
                r == cks | (stop << 3u8) | (pm << 4u8) | (pe << 5u8) | (chr << 6u8),
                cks < 4,
                stop <= 1,
                pm <= 1,
                pe <= 1,
                chr <= 1,
        ;
        r
    }

    /// The `SEMR` value for a baud setting: `ABCS` and `BGDM` from the setting,
    /// `NFEN` from the configuration, `BRME` when the setting is modulated,
    /// `ABCSE` clear and `RXDESEL` set.
    pub fn semr(&self, setting: BaudSetting) -> (r: u8)
        ensures
            (r >> 2u8) & 1 == 1 <==> setting.mddr is Some,
            (r >> 3u8) & 1 == 0,
            ((r >> 4u8) & 1 == 1) == setting.abcs,
            ((r >> 5u8) & 1 == 1) == self.noise_filter,
            ((r >> 6u8) & 1 == 1) == setting.bgdm,
            (r >> 7u8) & 1 == 1,
            r & 3 == 0,
    {
        let brme: u8 = if setting.mddr.is_some() { 1 } else { 0 };
        let abcs: u8 = if setting.abcs { 1 } else { 0 };
        let nfen: u8 = if self.noise_filter { 1 } else { 0 };
        let bgdm: u8 = if setting.bgdm { 1 } else { 0 };
        let r = (brme << 2u8) | (abcs << 4u8) | (nfen << 5u8) | (bgdm << 6u8) | 0x80u8;
        assert((r >> 2u8) & 1 == brme && (r >> 3u8) & 1 == 0 && (r >> 4u8) & 1 == abcs && (r >> 5u8) & 1 == nfen && (r
            >> 6u8) & 1 == bgdm && (r >> 7u8) & 1 == 1 && r & 3 == 0) by (bit_vector)
            requires
                r == (brme << 2u8) | (abcs << 4u8) | (nfen << 5u8) | (bgdm << 6u8) | 0x80u8,
                brme <= 1,
                abcs <= 1,
                nfen <= 1,
                bgdm <= 1,
        ;
        r
    }
}

/// A receive error reported through `SSR`, or an unreachable baud rate.
#[derive(Clone, Copy, PartialEq, Eq, Debug, Structural)]
pub enum Error {
    /// A character arrived before the previous one was read.
    Overrun,
    /// The stop bit was not where it should have been.
    Framing,
    /// The parity bit did not match.
    Parity,
    /// The requested baud rate cannot be produced from the current PCLKB.
    UnsupportedBaudRate,
}

/// Pins that can be handed to a [`Serial`]: a `(tx, rx)` tuple, a lone TX or RX
/// pin, or `()` when the pins are managed elsewhere. All must be in
/// [`Alternate`] mode.
pub trait Pins<SCI> {}

impl<SCI> Pins<SCI> for () {}

impl<SCI, const P: u8, const N: u8> Pins<SCI> for Pin<P, N, Alternate> {}

impl<SCI, A: AlternatePin, B: AlternatePin> Pins<SCI> for (A, B) {}

/// The distance between two integers.
pub open spec fn dist(a: int, b: int) -> int {
    if a >= b { a - b } else { b - a }
}

/// `a.abs_diff(b)`.
pub fn abs_diff(a: u32, b: u32) -> (r: u32)
    ensures
        r == dist(a as int, b as int),
{
    if a >= b { a - b } else { b - a }
}

/// Register settings that produce a bit rate.
///
/// The rate is `pclkb / (divisor * 4^cks * (brr + 1))`, optionally scaled by
/// `mddr / 256`.
#[derive(Clone, Copy, PartialEq, Eq, Debug, Structural)]
pub struct BaudSetting {
    /// `SMR.CKS`: prescales PCLKB by 4^cks.
    pub cks: u8,
    /// `SEMR.BGDM`.
    pub bgdm: bool,
    /// `SEMR.ABCS`: 8 base clock cycles per bit instead of 16.
    pub abcs: bool,
    /// `BRR`.
    pub brr: u8,
    /// `MDDR`, when bit-rate modulation is needed. `SEMR.BRME` follows this.
    pub mddr: Option<u8>,
}

/// The `(BGDM, ABCS, divisor)` combinations, in the order they are tried. `divisor`
/// is 32 with both bits clear and halves for each one that is set.
pub open spec fn baud_divisor(i: int) -> (bool, bool, int) {
    if i == 0 {
        (false, false, 32)
    } else if i == 1 {
        (true, false, 16)
    } else if i == 2 {
        (false, true, 16)
    } else {
        (true, true, 8)
    }
}

/// `4^cks`, the prescaler selected by `SMR.CKS`.
pub open spec fn prescale(cks: int) -> int {
    if cks == 0 {
        1
    } else if cks == 1 {
        4
    } else if cks == 2 {
        16
    } else {
        64
    }
}

/// Everything the bit rate is divided by except `BRR + 1`.
pub open spec fn baud_unit(i: int, cks: int) -> int {
    baud_divisor(i).2 * prescale(cks)
}

/// The plain solution for divisor combination `i` and prescaler `cks`: `brr`
/// rounded to nearest, with the bit rate it gives.
#[verifier::opaque]
pub open spec fn plain_candidate(pclkb: int, baud: int, i: int, cks: int) -> Option<(BaudSetting, int)> {
    let unit = baud_unit(i, cks);
    let den = unit * baud;
    let n = (pclkb + den / 2) / den;
    if baud >= 1 && den <= u32::MAX && 1 <= n <= 256 {
        Some(
            (
                BaudSetting {
                    cks: cks as u8,
                    bgdm: baud_divisor(i).0,
                    abcs: baud_divisor(i).1,
                    brr: (n - 1) as u8,
                    mddr: None,
                },
                pclkb / (unit * n),
            ),
        )
    } else {
        None
    }
}

/// The modulated solution for divisor combination `i` and prescaler `cks`: `brr`
/// rounded down, then the rate scaled back down by `mddr / 256` with `mddr`
/// rounded to nearest. Only `mddr` in `128..=255` is allowed.
#[verifier::opaque]
pub open spec fn modulated_candidate(pclkb: int, baud: int, i: int, cks: int) -> Option<(BaudSetting, int)> {
    let unit = baud_unit(i, cks);
    let den = unit * baud;
    let n = pclkb / den;
    let base = pclkb / (unit * n);
    let mddr = (256 * baud + base / 2) / base;
    if baud >= 1 && den <= u32::MAX && 1 <= n <= 256 && base != 0 && 128 <= mddr <= 255 {
        Some(
            (
                BaudSetting {
                    cks: cks as u8,
                    bgdm: baud_divisor(i).0,
                    abcs: baud_divisor(i).1,
                    brr: (n - 1) as u8,
                    mddr: Some(mddr as u8),
                },
                (pclkb * mddr) / (unit * n * 256),
            ),
        )
    } else {
        None
    }
}

/// Candidate `k` of the 32 the solver considers, with the rate it produces. They
/// come divisor combination by divisor combination, prescaler by prescaler, the
/// plain solution before the modulated one.
#[verifier::opaque]
pub open spec fn baud_candidate(pclkb: int, baud: int, k: int) -> Option<(BaudSetting, int)> {
    let i = k / 8;
    let cks = (k % 8) / 2;
    if k % 2 == 0 {
        plain_candidate(pclkb, baud, i, cks)
    } else {
        modulated_candidate(pclkb, baud, i, cks)
    }
}

/// How far candidate `k`'s rate is from `baud`.
pub open spec fn baud_candidate_error(pclkb: int, baud: int, k: int) -> int {
    dist(baud_candidate(pclkb, baud, k).unwrap().1, baud)
}

/// Candidate `k` exists, no candidate with index below `limit` is closer to `baud`,
/// and every candidate before `k` is strictly farther.
pub open spec fn is_first_closest(pclkb: int, baud: int, k: int, limit: int) -> bool {
    &&& 0 <= k < limit
    &&& baud_candidate(pclkb, baud, k) is Some
    &&& forall|j: int|
        #![trigger baud_candidate(pclkb, baud, j)]
        0 <= j < limit && baud_candidate(pclkb, baud, j) is Some ==> baud_candidate_error(pclkb, baud, k)
            <= baud_candidate_error(pclkb, baud, j)
    &&& forall|j: int|
        #![trigger baud_candidate(pclkb, baud, j)]
        0 <= j < k && baud_candidate(pclkb, baud, j) is Some ==> baud_candidate_error(pclkb, baud, j)
            > baud_candidate_error(pclkb, baud, k)
}

/// Everything the SCI divides PCLKB by for setting `s`, by the hardware formula: a
/// base-clock divisor of 32, halved once by `BGDM` and once by `ABCS`; the `CKS`
/// prescaler `4^cks`; and `BRR + 1`.
pub open spec fn sci_divisor(s: BaudSetting) -> int {
    let halvings: nat = (if s.bgdm { 1nat } else { 0nat }) + (if s.abcs { 1nat } else { 0nat });
    (32nat / pow2(halvings)) * pow2(2 * (s.cks as nat)) * (s.brr + 1)
}

/// The bit rate the SCI produces from `pclkb` with setting `s`: `pclkb` over the
/// divisor, scaled by `mddr / 256` when the bit-rate modulator is on.
pub open spec fn sci_rate(pclkb: int, s: BaudSetting) -> int {
    match s.mddr {
        None => pclkb / sci_divisor(s),
        Some(m) => pclkb * m / (sci_divisor(s) * 256),
    }
}

/// The rate the solver assigns each candidate is the rate its setting really
/// produces on the SCI.
pub proof fn lemma_candidate_rate_is_sci_rate(pclkb: int, baud: int, k: int)
    requires
        0 <= k < 32,
        baud_candidate(pclkb, baud, k) is Some,
    ensures
        baud_candidate(pclkb, baud, k).unwrap().1 == sci_rate(pclkb, baud_candidate(pclkb, baud, k).unwrap().0),
{
    reveal(baud_candidate);
    reveal(plain_candidate);
    reveal(modulated_candidate);
    lemma2_to64();
    let i = k / 8;
    let cks = (k % 8) / 2;
    assert(0 <= i < 4 && 0 <= cks < 4);
    let s = baud_candidate(pclkb, baud, k).unwrap().0;
    assert(s.cks == cks);
    assert(s.bgdm == baud_divisor(i).0 && s.abcs == baud_divisor(i).1);
    let halvings: nat = (if s.bgdm { 1nat } else { 0nat }) + (if s.abcs { 1nat } else { 0nat });
    if halvings == 0 {
        assert(32nat / pow2(halvings) == 32);
    } else if halvings == 1 {
        assert(32nat / pow2(halvings) == 16);
    } else {
        assert(32nat / pow2(halvings) == 8);
    }
    assert(baud_divisor(i).2 == 32nat / pow2(halvings));
    assert(prescale(cks) == pow2(2 * (s.cks as nat)));
    assert(baud_unit(i, cks) == (32nat / pow2(halvings)) * pow2(2 * (s.cks as nat)));
}

/// The spec value of an exec candidate.
pub open spec fn lift_candidate(c: Option<(BaudSetting, u32)>) -> Option<(BaudSetting, int)> {
    match c {
        Some((s, a)) => Some((s, a as int)),
        None => None,
    }
}

fn baud_divisor_exec(i: u32) -> (r: (bool, bool, u32))
    requires
        i < 4,
    ensures
        r.0 == baud_divisor(i as int).0,
        r.1 == baud_divisor(i as int).1,
        r.2 == baud_divisor(i as int).2,
{
    if i == 0 {
        (false, false, 32)
    } else if i == 1 {
        (true, false, 16)
    } else if i == 2 {
        (false, true, 16)
    } else {
        (true, true, 8)
    }
}

fn baud_unit_exec(i: u32, cks: u32) -> (r: u32)
    requires
        i < 4,
        cks < 4,
    ensures
        r == baud_unit(i as int, cks as int),
        1 <= r <= 2048,
{
    let (_, _, divisor) = baud_divisor_exec(i);
    let factor: u32 = if cks == 0 {
        1
    } else if cks == 1 {
        4
    } else if cks == 2 {
        16
    } else {
        64
    };
    assert(divisor * factor <= 2048) by (nonlinear_arith)
        requires
            divisor <= 32,
            factor <= 64,
    ;
    divisor * factor
}

fn plain_candidate_exec(pclkb: u32, baud: u32, i: u32, cks: u32) -> (r: Option<(BaudSetting, u32)>)
    requires
        i < 4,
        cks < 4,
    ensures
        lift_candidate(r) == plain_candidate(pclkb as int, baud as int, i as int, cks as int),
{
    reveal(plain_candidate);
    let (bgdm, abcs, _) = baud_divisor_exec(i);
    let unit = baud_unit_exec(i, cks);
    if baud == 0 {
        return None;
    }
    match unit.checked_mul(baud) {
        None => None,
        Some(den) => {
            assert(den >= 1) by (nonlinear_arith)
                requires
                    unit >= 1,
                    baud >= 1,
                    den == unit * baud,
            ;
            let n64: u64 = (pclkb as u64 + (den / 2) as u64) / (den as u64);
            if 1 <= n64 && n64 <= 256 {
                let n = n64 as u32;
                assert(unit * n <= 2048 * 256) by (nonlinear_arith)
                    requires
                        unit <= 2048,
                        n <= 256,
                ;
                assert(unit * n >= 1) by (nonlinear_arith)
                    requires
                        unit >= 1,
                        n >= 1,
                ;
                let actual = pclkb / (unit * n);
                Some(
                    (
                        BaudSetting {
                            cks: cks as u8,
                            bgdm,
                            abcs,
                            brr: (n - 1) as u8,
                            mddr: None,
                        },
                        actual,
                    ),
                )
            } else {
                None
            }
        },
    }
}

proof fn lemma_modulated_rate_fits(p: int, mddr: int, un: int)
    requires
        0 <= p,
        0 <= mddr <= 255,
        1 <= un,
    ensures
        (p * mddr) / (un * 256) <= p,
{
    assert(p * mddr <= p * 256) by (nonlinear_arith)
        requires
            0 <= p,
            mddr <= 256,
    ;
    assert(un * 256 >= 256) by (nonlinear_arith)
        requires
            1 <= un,
    ;
    assert(p * mddr >= 0) by (nonlinear_arith)
        requires
            0 <= p,
            0 <= mddr,
    ;
    vstd::arithmetic::div_mod::lemma_div_is_ordered_by_denominator(p * mddr, 256, un * 256);
    vstd::arithmetic::div_mod::lemma_div_is_ordered(p * mddr, p * 256, 256);
    vstd::arithmetic::div_mod::lemma_div_multiples_vanish(p, 256);
}

fn modulated_candidate_exec(pclkb: u32, baud: u32, i: u32, cks: u32) -> (r: Option<(BaudSetting, u32)>)
    requires
        i < 4,
        cks < 4,
    ensures
        lift_candidate(r) == modulated_candidate(pclkb as int, baud as int, i as int, cks as int),
{
    reveal(modulated_candidate);
    let (bgdm, abcs, _) = baud_divisor_exec(i);
    let unit = baud_unit_exec(i, cks);
    if baud == 0 {
        return None;
    }
    match unit.checked_mul(baud) {
        None => None,
        Some(den) => {
            assert(den >= 1) by (nonlinear_arith)
                requires
                    unit >= 1,
                    baud >= 1,
                    den == unit * baud,
            ;
            let n = pclkb / den;
            if 1 <= n && n <= 256 {
                assert(unit * n <= 2048 * 256) by (nonlinear_arith)
                    requires
                        unit <= 2048,
                        n <= 256,
                ;
                assert(unit * n >= 1) by (nonlinear_arith)
                    requires
                        unit >= 1,
                        n >= 1,
                ;
                let un = unit * n;
                let base: u64 = pclkb as u64 / un as u64;
                if base == 0 {
                    return None;
                }
                let mddr: u64 = (256 * baud as u64 + base / 2) / base;
                if 128 <= mddr && mddr <= 255 {
                    proof {
                        lemma_modulated_rate_fits(pclkb as int, mddr as int, un as int);
                        assert(pclkb as u64 * mddr <= 0xffff_ffff * 255) by (nonlinear_arith)
                            requires
                                pclkb <= 0xffff_ffff,
                                mddr <= 255,
                        ;
                    }
                    let actual: u64 = (pclkb as u64 * mddr) / (un as u64 * 256);
                    Some(
                        (
                            BaudSetting {
                                cks: cks as u8,
                                bgdm,
                                abcs,
                                brr: (n - 1) as u8,
                                mddr: Some(mddr as u8),
                            },
                            actual as u32,
                        ),
                    )
                } else {
                    None
                }
            } else {
                None
            }
        },
    }
}

fn baud_candidate_exec(pclkb: u32, baud: u32, k: u32) -> (r: Option<(BaudSetting, u32)>)
    requires
        k < 32,
    ensures
        lift_candidate(r) == baud_candidate(pclkb as int, baud as int, k as int),
{
    reveal(baud_candidate);
    let i = k / 8;
    let cks = (k % 8) / 2;
    if k % 2 == 0 {
        plain_candidate_exec(pclkb, baud, i, cks)
    } else {
        modulated_candidate_exec(pclkb, baud, i, cks)
    }
}

/// Find the register combination whose bit rate is closest to `baud`.
///
/// Two families of solution are considered for each prescaler. The plain one solves
/// `brr = pclkb / (divisor * 4^cks * baud) - 1` and rounds to nearest. The other uses
/// the bit-rate modulator: it picks a `brr` that lands *above* the target, then
/// scales the result down by `MDDR / 256`, which buys roughly eight extra bits of
/// resolution. Modulation is used whenever it is strictly closer; on a tie the
/// first, least exotic setting is kept.
///
/// Returns `None` exactly when no candidate exists, in particular for `baud == 0`.
pub fn calc_baud(pclkb: u32, baud: u32) -> (r: Option<BaudSetting>)
    ensures
        r is None <==> forall|k: int| 0 <= k < 32 ==> #[trigger] baud_candidate(pclkb as int, baud as int, k) is None,
        r matches Some(s) ==> exists|k: int|
            is_first_closest(pclkb as int, baud as int, k, 32) && #[trigger] baud_candidate(pclkb as int, baud as int, k).unwrap().0 == s,
        r matches Some(s) ==> forall|k: int|
            0 <= k < 32 && #[trigger] baud_candidate(pclkb as int, baud as int, k) is Some ==> dist(
                sci_rate(pclkb as int, s),
                baud as int,
            ) <= dist(sci_rate(pclkb as int, baud_candidate(pclkb as int, baud as int, k).unwrap().0), baud as int),
{
    let ghost p = pclkb as int;
    let ghost b = baud as int;
    let mut best: Option<(BaudSetting, u32)> = None;
    let ghost mut best_k: int = 0;
    let mut k: u32 = 0;
    while k < 32
        invariant
            k <= 32,
            p == pclkb as int,
            b == baud as int,
            best is None <==> forall|j: int| 0 <= j < k ==> #[trigger] baud_candidate(p, b, j) is None,
            best matches Some((s, e)) ==> {
                &&& is_first_closest(p, b, best_k, k as int)
                &&& baud_candidate(p, b, best_k).unwrap().0 == s
                &&& e == baud_candidate_error(p, b, best_k)
            },
        decreases 32 - k,
    {
        let c = baud_candidate_exec(pclkb, baud, k);
        assert(lift_candidate(c) == baud_candidate(p, b, k as int));
        let ghost old_best = best;
        let ghost old_k = best_k;
        match c {
            Some((s, actual)) => {
                let error = abs_diff(actual, baud);
                let keep = match best {
                    Some((_, best_err)) => best_err <= error,
                    None => false,
                };
                if !keep {
                    best = Some((s, error));
                    proof {
                        best_k = k as int;
                    }
                }
                proof {
                    assert(baud_candidate(p, b, k as int) == Some((s, actual as int)));
                    assert(error == baud_candidate_error(p, b, k as int));
                    if !keep {
                        assert forall|j: int|
                            #![trigger baud_candidate(p, b, j)]
                            0 <= j < k + 1 && baud_candidate(p, b, j) is Some implies baud_candidate_error(p, b, k as int)
                                <= baud_candidate_error(p, b, j) && (j < k ==> baud_candidate_error(p, b, j)
                                > baud_candidate_error(p, b, k as int)) by {
                            if j < k {
                                assert(old_best is Some);
                                assert(baud_candidate_error(p, b, old_k) <= baud_candidate_error(p, b, j));
                            }
                        }
                    } else {
                        assert forall|j: int|
                            #![trigger baud_candidate(p, b, j)]
                            0 <= j < k + 1 && baud_candidate(p, b, j) is Some implies baud_candidate_error(p, b, best_k)
                                <= baud_candidate_error(p, b, j) by {
                            if j < k {
                            }
                        }
                    }
                }
            },
            None => {
                proof {
                    assert(baud_candidate(p, b, k as int) is None);
                }
            },
        }
        k = k + 1;
    }
    proof {
        if best is Some {
            lemma_candidate_rate_is_sci_rate(p, b, best_k);
            assert forall|j: int|
                0 <= j < 32 && #[trigger] baud_candidate(p, b, j) is Some implies dist(
                    sci_rate(p, baud_candidate(p, b, best_k).unwrap().0),
                    b,
                ) <= dist(sci_rate(p, baud_candidate(p, b, j).unwrap().0), b) by {
                lemma_candidate_rate_is_sci_rate(p, b, j);
            }
        }
    }
    match best {
        Some((s, _)) => Some(s),
        None => None,
    }
}

// --- Driver ----------------------------------------------------------------------

/// A polled UART on one SCI channel: the channel and the pins it owns.
#[derive(Debug)]
pub struct Serial<SCI, PINS> {
    sci: SCI,
    pins: PINS,
}

/// [`calc_baud`] finds no setting for `baud` from `pclkb`.
pub open spec fn no_baud_setting(pclkb: u32, baud: u32) -> bool {
    forall|k: int| 0 <= k < 32 ==> #[trigger] baud_candidate(pclkb as int, baud as int, k) is None
}

/// `s` is what [`calc_baud`] returns for `baud` from `pclkb`.
pub open spec fn is_baud_setting_for(pclkb: u32, baud: u32, s: BaudSetting) -> bool {
    exists|k: int|
        is_first_closest(pclkb as int, baud as int, k, 32) && #[trigger] baud_candidate(pclkb as int, baud as int, k).unwrap().0 == s
}

impl<SCI, PINS: Pins<SCI>> Serial<SCI, PINS> {
    /// Take the channel and pins for asynchronous serial at `config.baudrate`,
    /// returning the baud setting to program.
    ///
    /// Fails with [`Error::UnsupportedBaudRate`] exactly when [`calc_baud`] finds no
    /// setting for the current PCLKB.
    pub fn new(sci: SCI, pins: PINS, config: Config, clocks: &Clocks) -> (r: Result<(Self, BaudSetting), Error>)
        ensures
            r is Err <==> no_baud_setting(clocks.spec_pclkb(), config.baudrate),
            r matches Err(e) ==> e == Error::UnsupportedBaudRate,
            r matches Ok((d, _)) ==> d.spec_parts() == (sci, pins),
            r matches Ok((_, s)) ==> is_baud_setting_for(clocks.spec_pclkb(), config.baudrate, s),
    {
        match calc_baud(clocks.pclkb(), config.baudrate) {
            Some(setting) => Ok((Serial { sci, pins }, setting)),
            None => Err(Error::UnsupportedBaudRate),
        }
    }

    /// Split into independent halves so TX and RX can live in different places.
    pub fn split(self) -> (Tx<SCI>, Rx<SCI>) {
        (Tx { _sci: PhantomData }, Rx { _sci: PhantomData })
    }

    /// The peripheral and pins it owns.
    pub closed spec fn spec_parts(&self) -> (SCI, PINS) {
        (self.sci, self.pins)
    }

    /// Give back the peripheral and pins, as they were handed to `new`.
    pub fn release(self) -> (r: (SCI, PINS))
        ensures
            r == self.spec_parts(),
    {
        (self.sci, self.pins)
    }

    /// Borrow the transmit half. The driver keeps its channel and pins.
    pub fn tx(&mut self) -> (r: Tx<SCI>)
        ensures
            *final(self) == *old(self),
    {
        Tx { _sci: PhantomData }
    }

    /// Borrow the receive half. The driver keeps its channel and pins.
    pub fn rx(&mut self) -> (r: Rx<SCI>)
        ensures
            *final(self) == *old(self),
    {
        Rx { _sci: PhantomData }
    }
}

/// `SSR.TDRE`: the transmit data register is empty.
pub const SSR_TDRE: u8 = 0x80;
/// `SSR.RDRF`: a received byte is waiting.
pub const SSR_RDRF: u8 = 0x40;
/// `SSR.ORER`: overrun error.
pub const SSR_ORER: u8 = 0x20;
/// `SSR.FER`: framing error.
pub const SSR_FER: u8 = 0x10;
/// `SSR.PER`: parity error.
pub const SSR_PER: u8 = 0x08;
/// `SSR.TEND`: transmission has ended.
pub const SSR_TEND: u8 = 0x04;

/// The transmit half of a [`Serial`].
#[derive(Debug)]
pub struct Tx<SCI> {
    _sci: PhantomData<SCI>,
}

/// The receive half of a [`Serial`].
#[derive(Debug)]
pub struct Rx<SCI> {
    _sci: PhantomData<SCI>,
}

impl<SCI> Tx<SCI> {
    /// Is the transmit data register empty, according to the `SSR` value read?
    pub fn is_tx_empty(&self, ssr: u8) -> (r: bool)
        ensures
            r == (ssr & SSR_TDRE != 0),
    {
        ssr & SSR_TDRE != 0
    }

    /// Has the last character been shifted all the way out, according to the `SSR`
    /// value read? Check this before powering the channel down or releasing TXD.
    pub fn is_tx_complete(&self, ssr: u8) -> (r: bool)
        ensures
            r == (ssr & SSR_TEND != 0),
    {
        ssr & SSR_TEND != 0
    }
}

/// What taking one received byte does, given the `SSR` value read.
#[derive(Clone, Copy, PartialEq, Eq, Debug, Structural)]
pub enum ReadStep {
    /// Report `error` and clear its flag by writing `ssr` back to `SSR`.
    Fail {
        /// The error to report.
        error: Error,
        /// The `SSR` value that clears the error's flag and keeps the others.
        ssr: u8,
    },
    /// Nothing has arrived yet.
    WouldBlock,
    /// A byte is waiting in `RDR`; reading it clears `RDRF`.
    Data,
}

impl<SCI> Rx<SCI> {
    /// Is there a received byte waiting, according to the `SSR` value read?
    pub fn is_rx_ready(&self, ssr: u8) -> (r: bool)
        ensures
            r == (ssr & SSR_RDRF != 0),
    {
        ssr & SSR_RDRF != 0
    }

    /// While filling a buffer after its first byte: can another byte be taken, given
    /// the `SSR` value read? Only a waiting byte with no error pending. A pending
    /// error ends the fill without being read, so it is reported, with its flag
    /// still set, by the next read.
    pub fn take_more(&self, ssr: u8) -> (r: bool)
        ensures
            r == (ssr & (SSR_ORER | SSR_FER | SSR_PER) == 0 && ssr & SSR_RDRF != 0),
    {
        ssr & (SSR_ORER | SSR_FER | SSR_PER) == 0 && ssr & SSR_RDRF != 0
    }

    /// Take one byte if one has arrived.
    ///
    /// Errors are reported before the byte, overrun first, then framing, then
    /// parity, and each clears its own flag (`SSR` error flags are cleared by writing
    /// 0 after reading a 1). An overrun does not consume `RDR`: once the error flags
    /// are cleared, a later call still returns the byte that was waiting.
    pub fn read_byte(&mut self, ssr: u8) -> (r: ReadStep)
        ensures
            ssr & SSR_ORER != 0 ==> r == (ReadStep::Fail { error: Error::Overrun, ssr: ssr & !SSR_ORER }),
            ssr & SSR_ORER == 0 && ssr & SSR_FER != 0 ==> r == (ReadStep::Fail { error: Error::Framing, ssr: ssr & !SSR_FER }),
            ssr & SSR_ORER == 0 && ssr & SSR_FER == 0 && ssr & SSR_PER != 0 ==> r == (ReadStep::Fail {
                error: Error::Parity,
                ssr: ssr & !SSR_PER,
            }),
            ssr & (SSR_ORER | SSR_FER | SSR_PER) == 0 ==> r == if ssr & SSR_RDRF != 0 { ReadStep::Data } else { ReadStep::WouldBlock },
    {
        assert(ssr & (0x20u8 | 0x10u8 | 0x08u8) == 0 <==> (ssr & 0x20 == 0 && ssr & 0x10 == 0 && ssr & 0x08 == 0)) by (bit_vector);
        if ssr & SSR_ORER != 0 {
            return ReadStep::Fail { error: Error::Overrun, ssr: ssr & !SSR_ORER };
        }
        if ssr & SSR_FER != 0 {
            return ReadStep::Fail { error: Error::Framing, ssr: ssr & !SSR_FER };
        }
        if ssr & SSR_PER != 0 {
            return ReadStep::Fail { error: Error::Parity, ssr: ssr & !SSR_PER };
        }
        if ssr & SSR_RDRF == 0 {
            return ReadStep::WouldBlock;
        }
        ReadStep::Data
    }
}

} // verus!
