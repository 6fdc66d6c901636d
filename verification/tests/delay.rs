use uno_r4_hal::clock::Config as ClockConfig;
use uno_r4_hal::delay::{delay_step, ticks_for_ms, ticks_for_ns, ticks_for_us};
use uno_r4_hal::timer::{clear_underflow, Timer, AGTCR_TCSTF, AGTCR_TSTART, AGTCR_TSTOP, AGTCR_TUNDF};

#[test]
fn ticks_round_up() {
    // 1 ns at 48 MHz is 0.048 ticks: a delay must never come back early.
    assert_eq!(ticks_for_ns(1, 48_000_000), 1);
    assert_eq!(ticks_for_ns(0, 48_000_000), 0);
    assert_eq!(ticks_for_ns(1_000, 48_000_000), 48);
    assert_eq!(ticks_for_us(1, 24_000_000), 24);
    assert_eq!(ticks_for_ms(500, 48_000_000), 24_000_000);
    assert_eq!(ticks_for_ns(u32::MAX, u32::MAX), 18_446_744_066);
}

#[test]
fn reload_steps_add_up() {
    let max = 0x00ff_ffffu32;
    let mut remaining = 24_000_000u64;
    let mut total = 0u64;
    let mut steps = 0;
    while let Some((reload, rest)) = delay_step(remaining, max) {
        assert!(reload < max);
        total += reload as u64 + 1;
        remaining = rest;
        steps += 1;
    }
    assert_eq!(total, 24_000_000);
    assert_eq!(steps, 2);
    assert_eq!(delay_step(0, max), None);
    assert_eq!(delay_step(5, 0x1_0000), Some((4, 0)));
}

#[test]
fn timer_dividers() {
    let clocks = ClockConfig::uno_r4().clocks();
    let mut timer = Timer::new(2u8, &clocks);
    assert_eq!(timer.pclkb(), 24_000_000);
    // 24 MHz / 1 kHz = 24000 counts, reload 23999, no prescaling.
    assert_eq!(timer.divider_for(1_000), Some((0b000, 23_999)));
    // 24 MHz / 200 Hz = 120000: /2 gives 60000.
    assert_eq!(timer.divider_for(200), Some((0b011, 59_999)));
    // 24 MHz / 50 Hz = 480000: /8 gives 60000.
    assert_eq!(timer.divider_for(50), Some((0b001, 59_999)));
    // Longer than one reload at /8.
    assert_eq!(timer.divider_for(10), None);
    // Faster than the timer can count.
    assert_eq!(timer.divider_for(48_000_000), None);
    assert_eq!(timer.divider_for(0), None);
    assert_eq!(timer.wait(AGTCR_TCSTF), None);
    assert_eq!(timer.wait(AGTCR_TCSTF | AGTCR_TUNDF), Some(AGTCR_TCSTF));
    assert_eq!(clear_underflow(AGTCR_TSTART | AGTCR_TSTOP | AGTCR_TUNDF | 0x40), 0x40);
    assert_eq!(timer.release(), 2u8);
}
