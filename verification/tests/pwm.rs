use uno_r4_hal::pwm::divider_for;
use uno_r4_hal::clock::Config as ClockConfig;
use uno_r4_hal::pwm::{gtcr_running, gtior_initial, Error, Pwm, GTIOR_OAE, GTIOR_OBE};

#[test]
fn picks_the_finest_prescaler_that_fits() {
    // 48 MHz / 1 kHz = 48000 counts, which fits with no prescaling.
    assert_eq!(divider_for(48_000_000, 1_000), Some((0b000, 48_000)));
    // 100 Hz needs 480000 counts, so the /16 prescaler (30000 counts).
    assert_eq!(divider_for(48_000_000, 100), Some((0b010, 30_000)));
}

#[test]
fn resolution_is_never_below_one_bit() {
    // 24 MHz would give a single count per cycle: refuse rather than emit a
    // square wave with no controllable duty.
    assert!(divider_for(48_000_000, 48_000_000).is_none());
}

#[test]
fn rejects_frequencies_below_the_slowest_prescaler() {
    // 48 MHz / 1024 / 65536 is about 0.72 Hz.
    assert!(divider_for(48_000_000, 0).is_none());
    assert!(divider_for(48_000_000, 1).is_some());
}

#[test]
fn divider_keeps_the_period_within_16_bits() {
    // 0xFFFF counts is the longest period that fits.
    assert_eq!(divider_for(0xFFFF, 1), Some((0b000, 0xFFFF)));
    // 0x1_0000 counts does not fit, so the /4 prescaler is used.
    assert_eq!(divider_for(0x1_0000, 1), Some((0b001, 0x4000)));
    assert_eq!(divider_for(131_072, 2), Some((0b001, 16_384)));
    assert_eq!(divider_for(0x1_0004, 1), Some((0b001, 0x4001)));
}

#[test]
fn pwm_new_split_and_duty() {
    let clocks = ClockConfig::uno_r4().clocks();
    assert!(matches!(Pwm::new(0u8, 0, &clocks), Err(Error::UnsupportedFrequency)));
    let (pwm, tpcs) = Pwm::new(5u8, 1_000, &clocks).ok().unwrap();
    assert_eq!(tpcs, 0);
    assert_eq!(pwm.period(), 48_000);
    assert_eq!(pwm.gtpr(), 47_999);
    let (mut a, mut b) = pwm.split();
    assert_eq!(a.max_duty_cycle(), 48_000);
    assert_eq!(b.max_duty_cycle(), 48_000);
    assert_eq!(a.duty_register(12_000), 12_000);
    assert_eq!(a.duty_register(60_000), 48_000);
    let g = gtior_initial();
    assert_eq!(g, 0x0009_0009);
    assert_eq!(a.enable(g), g | GTIOR_OAE);
    assert_eq!(b.enable(g), g | GTIOR_OBE);
    assert_eq!(a.disable(g | GTIOR_OAE | GTIOR_OBE), g | GTIOR_OBE);
    assert_eq!(b.disable(g | GTIOR_OAE | GTIOR_OBE), g | GTIOR_OAE);
}

#[test]
fn gtcr_runs_the_counter_at_the_prescaler() {
    assert_eq!(gtcr_running(0), 1);
    assert_eq!(gtcr_running(0b101), 0x0500_0001);
}
