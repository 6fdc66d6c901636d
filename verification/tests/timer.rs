use uno_r4_hal::clock::Config as ClockConfig;
use uno_r4_hal::timer::{agtmr1, clear_underflow, Timer, AGTCR_TCSTF, AGTCR_TSTART, AGTCR_TSTOP, AGTCR_TUNDF};

fn timer() -> Timer<u8> {
    // PCLKB is 24 MHz in the stock configuration.
    Timer::new(7u8, &ClockConfig::uno_r4().clocks())
}

#[test]
fn timer_remembers_pclkb_and_gives_the_channel_back() {
    let t = timer();
    assert_eq!(t.pclkb(), 24_000_000);
    assert_eq!(t.release(), 7);
}

#[test]
fn timer_picks_the_finest_prescaler_that_fits() {
    let t = timer();
    // 24 MHz / 1 kHz = 24000 counts at /1: a reload of 23999.
    assert_eq!(t.divider_for(1_000), Some((0b000, 23_999)));
    // 24 MHz / 200 Hz = 120000 counts at /1, 60000 at /2.
    assert_eq!(t.divider_for(200), Some((0b011, 59_999)));
    // 100 Hz: 240000 at /1, 120000 at /2, 30000 at /8.
    assert_eq!(t.divider_for(100), Some((0b001, 29_999)));
    // Exactly 0x1_0000 counts still fits, as a reload of 0xFFFF.
    let exact = Timer::new(0u8, &{
        let mut c = ClockConfig::moco();
        c.sysclk = uno_r4_hal::clock::SysClk::Hoco;
        c.hoco = 0x1_0000;
        c.clocks()
    });
    assert_eq!(exact.divider_for(1), Some((0b000, 0xFFFF)));
}

#[test]
fn timer_rejects_periods_out_of_reach() {
    let t = timer();
    assert_eq!(t.divider_for(0), None);
    // Faster than one count per period.
    assert_eq!(t.divider_for(48_000_000), None);
    // 24 MHz / 8 / 10 Hz = 300000 counts: longer than one reload can cover.
    assert_eq!(t.divider_for(10), None);
    // 24 MHz / 8 / 0x1_0000 is about 45.8 Hz; 46 Hz still fits.
    assert!(t.divider_for(46).is_some());
    assert_eq!(t.divider_for(45), None);
}

#[test]
fn each_underflow_is_reported_once() {
    let mut t = timer();
    let running = AGTCR_TCSTF | AGTCR_TUNDF;
    let clear = t.wait(running).unwrap();
    assert_eq!(clear, AGTCR_TCSTF);
    assert_eq!(t.wait(clear), None);
    assert_eq!(t.wait(AGTCR_TCSTF), None);
}

#[test]
fn clearing_the_underflow_triggers_neither_start_nor_stop() {
    assert_eq!(clear_underflow(0xFF), 0xFF & !(AGTCR_TSTART | AGTCR_TSTOP | AGTCR_TUNDF));
    assert_eq!(clear_underflow(0xFF) & AGTCR_TUNDF, 0);
    assert_eq!(clear_underflow(AGTCR_TCSTF | AGTCR_TUNDF), AGTCR_TCSTF);
}

#[test]
fn agtmr1_selects_timer_mode_and_prescaler() {
    assert_eq!(agtmr1(0b000), 0);
    assert_eq!(agtmr1(0b011), 0x30);
    assert_eq!(agtmr1(0b001), 0x10);
}
