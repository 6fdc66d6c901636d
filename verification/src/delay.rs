//! Delay arithmetic shared by the SysTick delay and the AGT timer: converting a
//! duration to clock ticks, and splitting a long wait into counter reloads.
use vstd::prelude::*;

verus! {

/// `a / b` rounded up.
pub open spec fn ceil_div(a: int, b: int) -> int {
    a / b + if a % b == 0 { 0int } else { 1int }
}

/// Ticks of a `hz` clock in `amount` units of `1 / per_second` seconds, rounded up.
pub open spec fn ticks_for(amount: int, hz: int, per_second: int) -> int {
    ceil_div(amount * hz, per_second)
}

fn div_ceil_u64(a: u64, b: u64) -> (r: u64)
    requires
        b > 1,
    ensures
        r == ceil_div(a as int, b as int),
{
    let q = a / b;
    if a % b == 0 {
        q
    } else {
        assert(q < a) by (nonlinear_arith)
            requires
                q == a / b,
                b > 1,
                a % b != 0,
        {
            vstd::arithmetic::div_mod::lemma_fundamental_div_mod(a as int, b as int);
        }
        q + 1
    }
}

fn ticks(amount: u32, hz: u32, per_second: u64) -> (r: u64)
    requires
        per_second > 1,
    ensures
        r == ticks_for(amount as int, hz as int, per_second as int),
{
    assert(amount as u64 * hz as u64 <= 0xffff_ffff * 0xffff_ffff) by (nonlinear_arith)
        requires
            amount <= 0xffff_ffff,
            hz <= 0xffff_ffff,
    ;
    div_ceil_u64(amount as u64 * hz as u64, per_second)
}

/// Ticks of a `hz` clock covering `ns` nanoseconds, rounded up so a delay is never
/// shorter than asked for.
pub fn ticks_for_ns(ns: u32, hz: u32) -> (r: u64)
    ensures
        r == ticks_for(ns as int, hz as int, 1_000_000_000),
{
    ticks(ns, hz, 1_000_000_000)
}

/// Ticks of a `hz` clock covering `us` microseconds, rounded up.
pub fn ticks_for_us(us: u32, hz: u32) -> (r: u64)
    ensures
        r == ticks_for(us as int, hz as int, 1_000_000),
{
    ticks(us, hz, 1_000_000)
}

/// Ticks of a `hz` clock covering `ms` milliseconds, rounded up.
pub fn ticks_for_ms(ms: u32, hz: u32) -> (r: u64)
    ensures
        r == ticks_for(ms as int, hz as int, 1_000),
{
    ticks(ms, hz, 1_000)
}

/// A tick count never comes back early, and never waits a whole tick more than it
/// has to: `ticks` is the least count whose duration covers the request.
pub proof fn lemma_ticks_cover_request(amount: nat, hz: nat, per_second: int)
    requires
        per_second > 0,
    ensures
        ticks_for(amount as int, hz as int, per_second) * per_second >= amount * hz,
        (ticks_for(amount as int, hz as int, per_second) - 1) * per_second < amount * hz || ticks_for(amount as int, hz as int, per_second) == 0,
{
    let x: int = (amount * hz) as int;
    vstd::arithmetic::div_mod::lemma_fundamental_div_mod(x as int, per_second);
    let q = x / per_second;
    let r = x % per_second;
    assert(ticks_for(amount as int, hz as int, per_second) * per_second >= x) by (nonlinear_arith)
        requires
            x == per_second * q + r,
            0 <= r < per_second,
            ticks_for(amount as int, hz as int, per_second) == q + if r == 0 { 0int } else { 1int },
    ;
    assert((ticks_for(amount as int, hz as int, per_second) - 1) * per_second < x || ticks_for(amount as int, hz as int, per_second) == 0) by (nonlinear_arith)
        requires
            x == per_second * q + r,
            0 <= r < per_second,
            q >= 0,
            ticks_for(amount as int, hz as int, per_second) == q + if r == 0 { 0int } else { 1int },
    ;
}

/// The counts of the next reload of a long wait: as many of the remaining ticks as
/// one reload can hold.
pub open spec fn chunk_of(remaining: int, max: int) -> int {
    if remaining < max { remaining } else { max }
}

/// The number of counter cycles a wait of `remaining` ticks lasts when it is run
/// reload after reload.
pub open spec fn cycles_waited(remaining: nat, max: nat) -> nat
    decreases remaining,
{
    if remaining == 0 || max == 0 {
        0
    } else {
        let chunk = chunk_of(remaining as int, max as int) as nat;
        chunk + cycles_waited((remaining - chunk) as nat, max)
    }
}

/// One step of a long wait on a counter that holds at most `max` counts per reload.
///
/// With `remaining` ticks left, returns the reload value to program (the counter
/// reloads on the tick after it reaches zero, so a reload of `N` lasts `N + 1`
/// ticks) and the ticks left after it, or `None` when the wait is over.
pub fn delay_step(remaining: u64, max: u32) -> (r: Option<(u32, u64)>)
    requires
        max >= 1,
    ensures
        remaining == 0 <==> r is None,
        r matches Some((reload, rest)) ==> {
            &&& reload + 1 == chunk_of(remaining as int, max as int)
            &&& reload < max
            &&& rest + reload + 1 == remaining
        },
{
    if remaining == 0 {
        return None;
    }
    let chunk: u32 = if remaining < max as u64 {
        remaining as u32
    } else {
        max
    };
    Some((chunk - 1, remaining - chunk as u64))
}

/// Running the steps of [`delay_step`] to completion waits exactly the requested
/// number of ticks.
pub proof fn lemma_steps_wait_exactly(remaining: nat, max: nat)
    requires
        max >= 1,
    ensures
        cycles_waited(remaining, max) == remaining,
    decreases remaining,
{
    if remaining > 0 {
        let chunk = chunk_of(remaining as int, max as int) as nat;
        lemma_steps_wait_exactly((remaining - chunk) as nat, max);
    }
}

} // verus!
