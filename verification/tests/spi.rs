use uno_r4_hal::spi::{calc_bitrate, BitRate};
use uno_r4_hal::clock::Config as ClockConfig;
use uno_r4_hal::spi::{
    check_errors, clear_errors, transfer_len, transfer_out, BitOrder, Config, Error, Phase, Polarity, Spi, SPSR_IDLNF,
    SPSR_MODF, SPSR_OVRF, SPSR_PERF, SPSR_SPRF,
};

fn achieved(pclka: u32, r: BitRate) -> u32 {
    pclka / (2 * (1 << r.brdv) * (r.spbr as u32 + 1))
}

#[test]
fn never_exceeds_the_requested_rate() {
    let pclka = 48_000_000;
    for target in [100_000u32, 1_000_000, 4_000_000, 8_000_000, 24_000_000] {
        let r = calc_bitrate(pclka, target).expect("representable");
        let got = achieved(pclka, r);
        assert!(got <= target, "{target}: got {got}, which is too fast");
    }
}

#[test]
fn picks_the_fastest_available_setting() {
    // 48 MHz / 2 is the ceiling, and it is exactly representable.
    let r = calc_bitrate(48_000_000, 24_000_000).unwrap();
    assert_eq!(achieved(48_000_000, r), 24_000_000);
}

#[test]
fn rejects_impossible_rates() {
    assert!(calc_bitrate(48_000_000, 0).is_none());
    // Below PCLKA / (2 * 8 * 256) nothing fits.
    assert!(calc_bitrate(48_000_000, 1_000).is_none());
}

#[test]
fn bitrate_1mhz_from_48mhz() {
    // 48 MHz / (2 * 24) = 1 MHz exactly, with no BRDV prescaling.
    assert_eq!(calc_bitrate(48_000_000, 1_000_000), Some(BitRate { spbr: 23, brdv: 0 }));
    // A rate that does not divide evenly rounds down: 48 MHz / 2 / 7 = 3.43 MHz.
    let r = calc_bitrate(48_000_000, 3_500_000).unwrap();
    assert_eq!(r, BitRate { spbr: 6, brdv: 0 });
    assert!(achieved(48_000_000, r) <= 3_500_000);
}

#[test]
fn bitrate_for_requests_past_the_ceiling() {
    // Asking for more than PCLKA / 2 gets the fastest setting, 24 MHz, even where
    // 16 * frequency does not fit in 32 bits.
    assert_eq!(calc_bitrate(48_000_000, 1_500_000_000), Some(BitRate { spbr: 0, brdv: 0 }));
    assert_eq!(calc_bitrate(48_000_000, 0x1000_0000), Some(BitRate { spbr: 0, brdv: 0 }));
    assert_eq!(calc_bitrate(48_000_000, u32::MAX), Some(BitRate { spbr: 0, brdv: 0 }));
}

#[test]
fn config_modes() {
    let m0 = Config::mode0(1_000);
    assert_eq!((m0.mode.polarity, m0.mode.phase), (Polarity::IdleLow, Phase::CaptureOnFirstTransition));
    let m1 = Config::mode1(1_000);
    assert_eq!((m1.mode.polarity, m1.mode.phase), (Polarity::IdleLow, Phase::CaptureOnSecondTransition));
    let m2 = Config::mode2(1_000);
    assert_eq!((m2.mode.polarity, m2.mode.phase), (Polarity::IdleHigh, Phase::CaptureOnFirstTransition));
    let m3 = Config::mode3(1_000).lsb_first();
    assert_eq!((m3.mode.polarity, m3.mode.phase), (Polarity::IdleHigh, Phase::CaptureOnSecondTransition));
    assert_eq!(m3.bit_order, BitOrder::LsbFirst);
    assert_eq!(Config::default(), Config::mode0(1_000_000));
}

#[test]
fn spcmd0_encodes_mode_rate_and_order() {
    let r = BitRate { spbr: 3, brdv: 2 };
    assert_eq!(Config::mode0(1_000).spcmd0(r), 0x0408);
    assert_eq!(Config::mode3(1_000).lsb_first().spcmd0(r), 0x140b);
}

#[test]
fn frame_errors_in_priority_order() {
    assert_eq!(check_errors(SPSR_OVRF | SPSR_MODF | SPSR_PERF), Err(Error::Overrun));
    assert_eq!(check_errors(SPSR_MODF | SPSR_PERF), Err(Error::ModeFault));
    assert_eq!(check_errors(SPSR_PERF), Err(Error::Parity));
    assert_eq!(check_errors(SPSR_SPRF | SPSR_IDLNF), Ok(()));
    assert_eq!(clear_errors(0xff), 0xff & !0x1d);
}

#[test]
fn transfer_pads_the_short_side() {
    assert_eq!(transfer_len(3, 5), 5);
    assert_eq!(transfer_len(4, 1), 4);
    let w = [1u8, 2];
    assert_eq!(transfer_out(&w, 1), 2);
    assert_eq!(transfer_out(&w, 2), 0xff);
}

#[test]
fn spi_new_reports_unsupported_frequency() {
    let clocks = ClockConfig::uno_r4().clocks();
    assert!(matches!(Spi::new((), (), Config::mode0(1_000), &clocks), Err(Error::UnsupportedFrequency)));
    let (spi, rate) = Spi::new(3u8, (), Config::mode0(24_000_000), &clocks).ok().unwrap();
    assert_eq!(rate, BitRate { spbr: 0, brdv: 0 });
    assert_eq!(spi.release(), (3u8, ()));
    assert_eq!(Error::Timeout.description(), "transfer timed out");
}
