//! Periodic timers and delays on the AGT peripherals: the reload solver.
//!
//! AGT is a 16-bit down-counter clocked from PCLKB with a /1, /2 or /8 prescaler.
use vstd::prelude::*;
use crate::clock::Clocks;

verus! {

/// Timer errors.
#[derive(Clone, Copy, PartialEq, Eq, Debug, Structural)]
pub enum Error {
    /// The requested period is longer than one reload can cover at the slowest
    /// prescaler, or shorter than one count.
    UnsupportedPeriod,
}

/// `AGTMR1.TCK` code of prescaler step `t`. The encoding is not monotonic: /2 is
/// 0b011 and /8 is 0b001.
pub open spec fn tck_code(t: int) -> u8 {
    if t == 0 {
        0b000
    } else if t == 1 {
        0b011
    } else {
        0b001
    }
}

/// The division of prescaler step `t`: 1, 2, 8.
pub open spec fn tck_div(t: int) -> int {
    if t == 0 {
        1
    } else if t == 1 {
        2
    } else {
        8
    }
}

/// Counts per period at prescaler step `t`.
pub open spec fn timer_counts(pclkb: int, frequency: int, t: int) -> int {
    pclkb / tck_div(t) / frequency
}

/// Step `t` is the one chosen: every finer step needs more than 16 bits of counts,
/// and this one at least one count and at most `0x1_0000`.
pub open spec fn is_timer_choice(pclkb: int, frequency: int, t: int) -> bool {
    &&& 0 <= t < 3
    &&& frequency >= 1
    &&& 1 <= timer_counts(pclkb, frequency, t) <= 0x1_0000
    &&& forall|u: int| 0 <= u < t ==> #[trigger] timer_counts(pclkb, frequency, u) > 0x1_0000
}

/// `AGTCR.TSTART`: start counting.
pub const AGTCR_TSTART: u8 = 0x01;
/// `AGTCR.TCSTF`: the counter is running.
pub const AGTCR_TCSTF: u8 = 0x02;
/// `AGTCR.TSTOP`: force a stop.
pub const AGTCR_TSTOP: u8 = 0x04;
/// `AGTCR.TUNDF`: the counter has underflowed.
pub const AGTCR_TUNDF: u8 = 0x20;

/// The `AGTCR` value that clears `TUNDF` without re-triggering a start or stop.
///
/// `AGTCR` mixes write-1 control bits (`TSTART`, `TSTOP`) with write-0-to-clear
/// status flags, so this is the value read with those three bits cleared.
pub fn clear_underflow(agtcr: u8) -> (r: u8)
    ensures
        r == agtcr & !(AGTCR_TSTART | AGTCR_TSTOP | AGTCR_TUNDF),
        r & AGTCR_TUNDF == 0,
        r & AGTCR_TSTART == 0,
        r & AGTCR_TSTOP == 0,
        r & !(AGTCR_TSTART | AGTCR_TSTOP | AGTCR_TUNDF) == agtcr & !(AGTCR_TSTART | AGTCR_TSTOP | AGTCR_TUNDF),
{
    let r = agtcr & !(AGTCR_TSTART | AGTCR_TSTOP | AGTCR_TUNDF);
    assert(r & 0x20 == 0 && r & 0x01 == 0 && r & 0x04 == 0 && r & !(0x01u8 | 0x04u8 | 0x20u8) == r) by (bit_vector)
        requires
            r == agtcr & !(0x01u8 | 0x04u8 | 0x20u8),
    ;
    r
}

/// The `AGTMR1` value for timer mode (`TMOD` = 0, count the reload value down to
/// zero) at prescaler code `tck` (`TCK`, bits 4..=6).
pub fn agtmr1(tck: u8) -> (r: u8)
    ensures
        r == (tck & 7) << 4u8,
        (r >> 4u8) & 7 == tck & 7,
        r & 0x8f == 0,
{
    let t = tck & 7;
    let r = t << 4u8;
    assert((r >> 4u8) & 7 == t && r & 0x8f == 0) by (bit_vector)
        requires
            r == t << 4u8,
            t == tck & 7,
    ;
    r
}

/// A periodic 16-bit down-counter.
#[derive(Debug)]
pub struct Timer<AGT> {
    agt: AGT,
    pclkb: u32,
}

impl<AGT> Timer<AGT> {
    /// Take the channel, remembering the PCLKB frequency it counts.
    pub fn new(agt: AGT, clocks: &Clocks) -> (t: Self)
        ensures
            t.pclkb_hz() == clocks.spec_pclkb(),
            t.spec_agt() == agt,
    {
        Timer { agt, pclkb: clocks.pclkb() }
    }

    /// The PCLKB frequency the timer counts.
    pub closed spec fn pclkb_hz(&self) -> u32 {
        self.pclkb
    }

    /// The PCLKB frequency the timer counts.
    pub fn pclkb(&self) -> (r: u32)
        ensures
            r == self.pclkb_hz(),
    {
        self.pclkb
    }

    /// The peripheral it owns.
    pub closed spec fn spec_agt(&self) -> AGT {
        self.agt
    }

    /// Give the peripheral back, as it was handed to `new`.
    pub fn release(self) -> (r: AGT)
        ensures
            r == self.spec_agt(),
    {
        self.agt
    }

    /// Has the counter underflowed since the flag was last cleared, according to
    /// the `AGTCR` value read? If so, returns the `AGTCR` value that consumes the
    /// flag, so each period is reported exactly once.
    pub fn wait(&mut self, agtcr: u8) -> (r: Option<u8>)
        ensures
            r is Some <==> agtcr & AGTCR_TUNDF != 0,
            r matches Some(w) ==> w == agtcr & !(AGTCR_TSTART | AGTCR_TSTOP | AGTCR_TUNDF),
    {
        if agtcr & AGTCR_TUNDF != 0 {
            Some(clear_underflow(agtcr))
        } else {
            None
        }
    }

    /// Choose the finest prescaler whose reload value still fits in 16 bits.
    ///
    /// Returns the `AGTMR1.TCK` code and the reload value: the counter underflows one
    /// cycle after reaching zero, so a reload of `N` gives `N + 1` counts.
    pub fn divider_for(&self, frequency: u32) -> (r: Option<(u8, u16)>)
        ensures
            r is Some <==> exists|t: int| is_timer_choice(self.pclkb_hz() as int, frequency as int, t),
            r matches Some((code, reload)) ==> exists|t: int|
                #![trigger timer_counts(self.pclkb_hz() as int, frequency as int, t)]
                is_timer_choice(self.pclkb_hz() as int, frequency as int, t) && code == tck_code(t)
                    && reload + 1 == timer_counts(self.pclkb_hz() as int, frequency as int, t),
    {
        let ghost p = self.pclkb as int;
        if frequency == 0 {
            return None;
        }
        let mut t: u32 = 0;
        while t < 3
            invariant
                t <= 3,
                frequency >= 1,
                p == self.pclkb as int,
                forall|u: int| 0 <= u < t ==> #[trigger] timer_counts(p, frequency as int, u) > 0x1_0000,
            decreases 3 - t,
        {
            let (tck, div): (u8, u32) = if t == 0 {
                (0b000, 1)
            } else if t == 1 {
                (0b011, 2)
            } else {
                (0b001, 8)
            };
            assert(div == tck_div(t as int) && tck == tck_code(t as int));
            let counts = self.pclkb / div / frequency;
            assert(counts == timer_counts(p, frequency as int, t as int));
            if counts == 0 {
                // Faster than the timer can count; coarser steps only count less.
                proof {
                    assert forall|u: int| !is_timer_choice(p, frequency as int, u) by {
                        if t <= u < 3 {
                            vstd::arithmetic::div_mod::lemma_div_is_ordered_by_denominator(p, tck_div(t as int), tck_div(u));
                            vstd::arithmetic::div_mod::lemma_div_is_ordered(p / tck_div(u), p / tck_div(t as int), frequency as int);
                        }
                    }
                }
                return None;
            }
            if counts <= 0x1_0000 {
                assert(is_timer_choice(p, frequency as int, t as int));
                assert(self.pclkb_hz() as int == p);
                assert(is_timer_choice(self.pclkb_hz() as int, frequency as int, t as int));
                return Some((tck, (counts - 1) as u16));
            }
            t = t + 1;
        }
        proof {
            assert forall|u: int| !is_timer_choice(p, frequency as int, u) by {
                if 0 <= u < 3 {
                    assert(timer_counts(p, frequency as int, u) > 0x1_0000);
                }
            }
        }
        None
    }
}

} // verus!
