//! PWM on the GPT peripherals: the prescaler and period solver, channel splitting
//! and duty clamping.
use vstd::prelude::*;
use vstd::arithmetic::power2::{lemma2_to64, pow2};
use core::marker::PhantomData;
use crate::clock::Clocks;

verus! {

/// PWM errors.
#[derive(Clone, Copy, PartialEq, Eq, Debug, Structural)]
pub enum Error {
    /// The requested frequency cannot be produced from the current PCLKD with a
    /// period that fits in 16 bits.
    UnsupportedFrequency,
}

/// The `GTIOCnA` output (type state).
#[derive(Debug)]
pub struct ChannelA;

/// The `GTIOCnB` output (type state).
#[derive(Debug)]
pub struct ChannelB;

/// A configured GPT channel running as a PWM generator.
#[derive(Debug)]
pub struct Pwm<GPT> {
    gpt: GPT,
    /// Counts per cycle. `GTPR` holds this minus one.
    period: u16,
}

/// One of a GPT channel's two PWM outputs.
#[derive(Debug)]
pub struct PwmChannel<GPT, C> {
    period: u16,
    _gpt: PhantomData<GPT>,
    _channel: PhantomData<C>,
}

/// [`divider_for`] finds no setting.
pub open spec fn no_pwm_setting(pclkd: u32, frequency: u32) -> bool {
    !exists|t: int| is_pwm_choice(pclkd as int, frequency as int, t)
}

impl<GPT> Pwm<GPT> {
    /// A cycle has at least two counts, so a duty cycle can be set.
    #[verifier::type_invariant]
    spec fn inv(self) -> bool {
        self.period >= 2
    }

    /// The counts per cycle.
    pub closed spec fn spec_period(&self) -> u16 {
        self.period
    }

    /// Take the channel for saw-wave PWM at `frequency` Hz, returning the
    /// `GTCR.TPCS` prescaler code to program.
    ///
    /// Fails with [`Error::UnsupportedFrequency`] exactly when [`divider_for`] finds
    /// no setting for the current PCLKD.
    pub fn new(gpt: GPT, frequency: u32, clocks: &Clocks) -> (r: Result<(Self, u8), Error>)
        ensures
            r is Err <==> no_pwm_setting(clocks.spec_pclkd(), frequency),
            r matches Err(e) ==> e == Error::UnsupportedFrequency,
            r matches Ok((pwm, _)) ==> pwm.spec_gpt() == gpt,
            r matches Ok((pwm, code)) ==> exists|t: int|
                #![trigger pwm_counts(clocks.spec_pclkd() as int, frequency as int, t)]
                is_pwm_choice(clocks.spec_pclkd() as int, frequency as int, t) && code == tpcs_code(t)
                    && pwm.spec_period() as int == pwm_counts(clocks.spec_pclkd() as int, frequency as int, t),
            r matches Ok((pwm, _)) ==> pwm.spec_period() >= 2,
    {
        match divider_for(clocks.pclkd(), frequency) {
            Some((tpcs, period)) => Ok((Pwm { gpt, period }, tpcs)),
            None => Err(Error::UnsupportedFrequency),
        }
    }

    /// The counts per cycle.
    pub fn period(&self) -> (r: u16)
        ensures
            r == self.spec_period(),
    {
        self.period
    }

    /// The `GTPR` value: the counts per cycle minus one.
    pub fn gtpr(&self) -> (r: u32)
        ensures
            r + 1 == self.spec_period(),
    {
        proof {
            use_type_invariant(self);
        }
        self.period as u32 - 1
    }

    /// The peripheral it owns.
    pub closed spec fn spec_gpt(&self) -> GPT {
        self.gpt
    }

    /// Give the peripheral back, as it was handed to `new`.
    pub fn release(self) -> (r: GPT)
        ensures
            r == self.spec_gpt(),
    {
        self.gpt
    }

    /// Split into the two independently controllable outputs, which share the
    /// period.
    pub fn split(self) -> (r: (PwmChannel<GPT, ChannelA>, PwmChannel<GPT, ChannelB>))
        ensures
            r.0.spec_period() == self.spec_period(),
            r.1.spec_period() == self.spec_period(),
    {
        let period = self.period;
        (
            PwmChannel { period, _gpt: PhantomData, _channel: PhantomData },
            PwmChannel { period, _gpt: PhantomData, _channel: PhantomData },
        )
    }
}

/// `GTIOR` setting of one output for active-high saw-wave PWM: initial output low,
/// high at cycle end, low at compare match.
pub const GTIO_ACTIVE_HIGH: u32 = 0b01001;
/// `GTIOR.OAE`: drive the `GTIOCnA` pin.
pub const GTIOR_OAE: u32 = 0x100;
/// `GTIOR.OBE`: drive the `GTIOCnB` pin.
pub const GTIOR_OBE: u32 = 0x0100_0000;

/// The `GTIOR` value a new channel starts with: both outputs set up for
/// active-high PWM (`GTIOA` in bits 0..=4, `GTIOB` in bits 16..=20) and both
/// disabled.
pub fn gtior_initial() -> (r: u32)
    ensures
        r & 0x1f == GTIO_ACTIVE_HIGH,
        (r >> 16u32) & 0x1f == GTIO_ACTIVE_HIGH,
        r & GTIOR_OAE == 0,
        r & GTIOR_OBE == 0,
{
    let r = GTIO_ACTIVE_HIGH | (GTIO_ACTIVE_HIGH << 16u32);
    assert(r & 0x1f == 9 && (r >> 16u32) & 0x1f == 9 && r & 0x100 == 0 && r & 0x0100_0000 == 0) by (bit_vector)
        requires
            r == 9u32 | (9u32 << 16u32),
    ;
    r
}

/// The `GTCR` value that runs the counter: saw-wave PWM (`MD` = 0), the prescaler
/// code in `TPCS` (bits 24..=26) and `CST` (bit 0) set.
pub fn gtcr_running(tpcs: u8) -> (r: u32)
    ensures
        r == ((tpcs as u32 & 7) << 24u32) | 1,
        (r >> 24u32) & 7 == tpcs & 7,
        r & 1 == 1,
        r & !(0x0700_0001u32) == 0,
{
    let t = tpcs as u32 & 7;
    assert(t < 8) by (bit_vector)
        requires
            t == tpcs as u32 & 7,
    ;
    let r = (t << 24u32) | 1;
    assert((r >> 24u32) & 7 == t && r & 1 == 1 && r & !(0x0700_0001u32) == 0) by (bit_vector)
        requires
            r == (t << 24u32) | 1,
            t < 8,
    ;
    assert(t == tpcs & 7) by (bit_vector)
        requires
            t == tpcs as u32 & 7,
    ;
    r
}

impl<GPT> PwmChannel<GPT, ChannelA> {
    /// Drive the `GTIOCnA` pin: the `GTIOR` read with `OAE` set. `GTIOR` holds both
    /// outputs' settings, so this read-modify-write must not race the other channel.
    pub fn enable(&mut self, gtior: u32) -> (r: u32)
        ensures
            r == gtior | GTIOR_OAE,
    {
        gtior | GTIOR_OAE
    }

    /// Release the `GTIOCnA` pin: the `GTIOR` read with `OAE` cleared.
    pub fn disable(&mut self, gtior: u32) -> (r: u32)
        ensures
            r == gtior & !GTIOR_OAE,
    {
        gtior & !GTIOR_OAE
    }
}

impl<GPT> PwmChannel<GPT, ChannelB> {
    /// Drive the `GTIOCnB` pin: the `GTIOR` read with `OBE` set.
    pub fn enable(&mut self, gtior: u32) -> (r: u32)
        ensures
            r == gtior | GTIOR_OBE,
    {
        gtior | GTIOR_OBE
    }

    /// Release the `GTIOCnB` pin: the `GTIOR` read with `OBE` cleared.
    pub fn disable(&mut self, gtior: u32) -> (r: u32)
        ensures
            r == gtior & !GTIOR_OBE,
    {
        gtior & !GTIOR_OBE
    }
}

/// Enabling or disabling one output never touches the other output's bits.
pub proof fn lemma_outputs_independent(gtior: u32)
    ensures
        (gtior | GTIOR_OAE) & GTIOR_OBE == gtior & GTIOR_OBE,
        (gtior & !GTIOR_OAE) & GTIOR_OBE == gtior & GTIOR_OBE,
        (gtior | GTIOR_OBE) & GTIOR_OAE == gtior & GTIOR_OAE,
        (gtior & !GTIOR_OBE) & GTIOR_OAE == gtior & GTIOR_OAE,
{
    assert((gtior | 0x100) & 0x0100_0000 == gtior & 0x0100_0000 && (gtior & !0x100u32) & 0x0100_0000 == gtior
        & 0x0100_0000 && (gtior | 0x0100_0000) & 0x100 == gtior & 0x100 && (gtior & !0x0100_0000u32) & 0x100 == gtior
        & 0x100) by (bit_vector);
}

impl<GPT, C> PwmChannel<GPT, C> {
    /// The counts per cycle.
    pub closed spec fn spec_period(&self) -> u16 {
        self.period
    }

    /// The largest duty cycle: a constant high output.
    pub fn max_duty_cycle(&self) -> (r: u16)
        ensures
            r == self.spec_period(),
    {
        self.period
    }

    /// The compare register value for `duty`: clamped to the period, so a duty past
    /// the maximum is a constant high.
    pub fn duty_register(&self, duty: u16) -> (r: u32)
        ensures
            r == if duty <= self.spec_period() { duty } else { self.spec_period() },
            r <= self.spec_period(),
    {
        if duty <= self.period {
            duty as u32
        } else {
            self.period as u32
        }
    }
}

/// `GTCR.TPCS` code of prescaler step `t`, in order of increasing division.
pub open spec fn tpcs_code(t: int) -> u8 {
    t as u8
}

/// The division of prescaler step `t`: 1, 4, 16, 64, 256, 1024.
pub open spec fn tpcs_div(t: int) -> int {
    if t == 0 {
        1
    } else if t == 1 {
        4
    } else if t == 2 {
        16
    } else if t == 3 {
        64
    } else if t == 4 {
        256
    } else {
        1024
    }
}

/// Counts per cycle at prescaler step `t`.
pub open spec fn pwm_counts(pclkd: int, frequency: int, t: int) -> int {
    pclkd / tpcs_div(t) / frequency
}

/// Step `t` is the one chosen: every finer step needs more counts than 16 bits
/// hold, and this one fits in 16 bits with at least two counts.
pub open spec fn is_pwm_choice(pclkd: int, frequency: int, t: int) -> bool {
    &&& 0 <= t < 6
    &&& frequency >= 1
    &&& 2 <= pwm_counts(pclkd, frequency, t) <= 0xFFFF
    &&& forall|u: int| 0 <= u < t ==> #[trigger] pwm_counts(pclkd, frequency, u) > 0xFFFF
}

/// Pick the finest prescaler whose period still fits in 16 bits.
///
/// Staying inside 16 bits keeps the duty resolution addressable by a `u16`, and
/// works on the 16-bit GPT channels as well as the 32-bit ones. Returns the
/// `GTCR.TPCS` code and the exact counts per cycle.
///
/// Returns `None` for a zero frequency, when the first prescaler whose period fits
/// would give fewer than two counts (too fast to have any duty resolution), and
/// when even the slowest prescaler needs more than 16 bits.
pub fn divider_for(pclkd: u32, frequency: u32) -> (r: Option<(u8, u16)>)
    ensures
        r is Some <==> exists|t: int| is_pwm_choice(pclkd as int, frequency as int, t),
        r matches Some((code, period)) ==> exists|t: int|
            #![trigger pwm_counts(pclkd as int, frequency as int, t)]
            is_pwm_choice(pclkd as int, frequency as int, t) && code == tpcs_code(t) && period as int
                == pwm_counts(pclkd as int, frequency as int, t),
        r matches Some((_, period)) ==> period >= 2,
        r matches Some((code, period)) ==> {
            &&& period * pow2(2 * (code as nat)) * frequency <= pclkd
            &&& pclkd < (period + 1) * pow2(2 * (code as nat)) * frequency
        },
{
    if frequency == 0 {
        return None;
    }
    let mut t: u32 = 0;
    while t < 6
        invariant
            t <= 6,
            frequency >= 1,
            forall|u: int| 0 <= u < t ==> #[trigger] pwm_counts(pclkd as int, frequency as int, u) > 0xFFFF,
        decreases 6 - t,
    {
        let div: u32 = if t == 0 {
            1
        } else if t == 1 {
            4
        } else if t == 2 {
            16
        } else if t == 3 {
            64
        } else if t == 4 {
            256
        } else {
            1024
        };
        assert(div == tpcs_div(t as int));
        let counts = pclkd / div / frequency;
        assert(counts == pwm_counts(pclkd as int, frequency as int, t as int));
        if counts < 2 {
            // Too fast to have any duty resolution at all. Every later step divides
            // further, so none can do better.
            proof {
                lemma_counts_nonincreasing(pclkd as int, frequency as int, t as int);
            }
            return None;
        }
        if counts <= 0xFFFF {
            assert(is_pwm_choice(pclkd as int, frequency as int, t as int));
            proof {
                lemma_period_fills_cycle(pclkd, frequency, t as int);
            }
            return Some((t as u8, counts as u16));
        }
        t = t + 1;
    }
    proof {
        assert forall|u: int| !is_pwm_choice(pclkd as int, frequency as int, u) by {
            if 0 <= u < 6 {
                assert(pwm_counts(pclkd as int, frequency as int, u) > 0xFFFF);
            }
        }
    }
    None
}

/// Prescaler step `t` is `GTCR.TPCS` code `t`, and divides PCLKD by `4^t`.
pub proof fn lemma_gpt_prescaler(t: int)
    requires
        0 <= t < 6,
    ensures
        tpcs_div(t) == pow2((2 * t) as nat),
        tpcs_code(t) as int == t,
{
    lemma2_to64();
}

/// The counts per cycle at step `t` are the whole number of prescaled PCLKD counts
/// (`4^t` cycles each) that fit in one period of `frequency`.
pub proof fn lemma_period_fills_cycle(pclkd: u32, frequency: u32, t: int)
    requires
        0 <= t < 6,
        frequency >= 1,
    ensures
        pwm_counts(pclkd as int, frequency as int, t) * pow2(2 * (tpcs_code(t) as nat)) * frequency <= pclkd,
        pclkd < (pwm_counts(pclkd as int, frequency as int, t) + 1) * pow2(2 * (tpcs_code(t) as nat)) * frequency,
{
    lemma_gpt_prescaler(t);
    let d = tpcs_div(t);
    let f = frequency as int;
    let x = pclkd as int;
    assert(d >= 1);
    vstd::arithmetic::div_mod::lemma_div_denominator(x, d, f);
    let q = x / (d * f);
    assert(d * f >= 1) by (nonlinear_arith)
        requires
            d >= 1,
            f >= 1,
    ;
    vstd::arithmetic::div_mod::lemma_fundamental_div_mod(x, d * f);
    assert(pwm_counts(x, f, t) == q);
    assert(q * d * f <= x && x < (q + 1) * d * f) by (nonlinear_arith)
        requires
            x == (d * f) * q + x % (d * f),
            0 <= x % (d * f) < d * f,
    ;
}

/// Counts never grow as the prescaler gets coarser.
pub proof fn lemma_counts_nonincreasing(pclkd: int, frequency: int, t: int)
    requires
        0 <= pclkd,
        frequency >= 1,
        0 <= t < 6,
    ensures
        forall|u: int| t <= u < 6 ==> #[trigger] pwm_counts(pclkd, frequency, u) <= pwm_counts(pclkd, frequency, t),
{
    assert forall|u: int| t <= u < 6 implies #[trigger] pwm_counts(pclkd, frequency, u) <= pwm_counts(pclkd, frequency, t) by {
        assert(tpcs_div(t) <= tpcs_div(u));
        vstd::arithmetic::div_mod::lemma_div_is_ordered_by_denominator(pclkd, tpcs_div(t), tpcs_div(u));
        vstd::arithmetic::div_mod::lemma_div_is_ordered(pclkd / tpcs_div(u), pclkd / tpcs_div(t), frequency);
    }
}

} // verus!
