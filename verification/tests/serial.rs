use uno_r4_hal::serial::{calc_baud, BaudSetting};
use uno_r4_hal::clock::Config as ClockConfig;
use uno_r4_hal::serial::{
    Config, DataBits, Error, Parity, ReadStep, Serial, StopBits, Rx, Tx, SSR_FER, SSR_ORER, SSR_PER,
    SSR_RDRF, SSR_TDRE, SSR_TEND,
};

/// The rate the driver will actually produce for a given `BaudSetting`.
fn actual(pclkb: u32, s: BaudSetting) -> u32 {
    let divisor: u64 = match (s.bgdm, s.abcs) {
        (false, false) => 32,
        (true, true) => 8,
        _ => 16,
    };
    let unit = divisor * (1 << (2 * s.cks as u32)) * (s.brr as u64 + 1);
    let base = u64::from(pclkb) / unit;
    match s.mddr {
        None => base as u32,
        Some(mddr) => ((u64::from(pclkb) * u64::from(mddr)) / (unit * 256)) as u32,
    }
}

#[test]
fn common_rates_are_within_two_percent() {
    // PCLKB is 24 MHz in the stock Uno R4 clock configuration.
    for pclkb in [24_000_000u32, 48_000_000] {
        for baud in [9_600u32, 19_200, 38_400, 57_600, 115_200, 230_400, 460_800] {
            let s = calc_baud(pclkb, baud).expect("representable");
            let got = actual(pclkb, s);
            // Async serial tolerates about 2% total skew across a frame; every
            // rate here should land far inside that.
            let error = got.abs_diff(baud) * 1000 / baud;
            assert!(error <= 10, "{pclkb} -> {baud}: got {got} ({error}/1000 off)");
        }
    }
}

#[test]
fn rejects_zero_and_absurd_rates() {
    assert!(calc_baud(24_000_000, 0).is_none());
    // Below PCLKB / (32 * 64 * 256) nothing fits in BRR.
    assert!(calc_baud(24_000_000, 10).is_none());
}

#[test]
fn baud_115200_from_24mhz_is_modulated() {
    // The closest plain setting, 24 MHz / (16 * 13) = 115384, is 184 off; BRR 5
    // with MDDR 236 gives 115234, 34 off, so modulation wins.
    let s = calc_baud(24_000_000, 115_200).unwrap();
    assert_eq!(s, BaudSetting { cks: 0, bgdm: false, abcs: false, brr: 5, mddr: Some(236) });
    assert_eq!(actual(24_000_000, s), 115_234);
}

#[test]
fn baud_460800_from_24mhz_needs_modulation() {
    let s = calc_baud(24_000_000, 460_800).unwrap();
    assert!(s.mddr.is_some());
    let got = actual(24_000_000, s);
    assert!(got.abs_diff(460_800) * 1000 / 460_800 <= 10);
}

#[test]
fn baud_exact_rate_has_zero_error() {
    // 32 * 1 * 75 = 2400: the plain candidate with cks 0 divides exactly.
    let s = calc_baud(2_400 * 32 * 75, 2_400).unwrap();
    assert_eq!(actual(2_400 * 32 * 75, s), 2_400);
    assert_eq!(s.mddr, None);
}

#[test]
fn config_builders_set_one_field_each() {
    let c = Config::baud(9_600)
        .data_bits(DataBits::Seven)
        .parity(Parity::Odd)
        .stop_bits(StopBits::Two)
        .noise_filter(true);
    assert_eq!(c.baudrate, 9_600);
    assert_eq!(c.data_bits, DataBits::Seven);
    assert_eq!(c.parity, Parity::Odd);
    assert_eq!(c.stop_bits, StopBits::Two);
    assert!(c.noise_filter);
    let d = Config::default();
    assert_eq!(d, Config::baud(115_200));
    assert_eq!(d.parity, Parity::NoParity);
}

#[test]
fn smr_encodes_the_frame_format() {
    let c = Config::baud(9_600).data_bits(DataBits::Seven).parity(Parity::Odd).stop_bits(StopBits::Two);
    // CHR | PE | PM | STOP | CKS = 2
    assert_eq!(c.smr(2), 0b0111_1010);
    let plain = Config::baud(9_600);
    assert_eq!(plain.smr(1), 0b0000_0001);
    let even = Config::baud(9_600).parity(Parity::Even);
    assert_eq!(even.smr(0), 0b0010_0000);
}

#[test]
fn semr_follows_the_baud_setting() {
    let c = Config::baud(9_600).noise_filter(true);
    let s = BaudSetting { cks: 0, bgdm: true, abcs: true, brr: 12, mddr: Some(200) };
    // RXDESEL | BGDM | NFEN | ABCS | BRME
    assert_eq!(c.semr(s), 0b1111_0100);
    let plain = BaudSetting { cks: 0, bgdm: false, abcs: false, brr: 12, mddr: None };
    assert_eq!(Config::baud(9_600).semr(plain), 0b1000_0000);
}

#[test]
fn serial_new_reports_unsupported_rates() {
    let clocks = ClockConfig::uno_r4().clocks();
    let r = Serial::new(0u8, (), Config::baud(0), &clocks);
    assert!(matches!(r, Err(Error::UnsupportedBaudRate)));
    let (serial, setting) = Serial::new(7u8, (), Config::baud(115_200), &clocks).ok().unwrap();
    assert_eq!(Some(setting), calc_baud(24_000_000, 115_200));
    assert_eq!(serial.release(), (7u8, ()));
}

#[test]
fn status_bits_are_read_from_ssr() {
    let clocks = ClockConfig::uno_r4().clocks();
    let (serial, _) = Serial::new(0u8, (), Config::baud(9_600), &clocks).ok().unwrap();
    let (tx, rx): (Tx<u8>, Rx<u8>) = serial.split();
    assert!(tx.is_tx_empty(SSR_TDRE));
    assert!(!tx.is_tx_empty(SSR_TEND));
    assert!(tx.is_tx_complete(SSR_TEND));
    assert!(!tx.is_tx_complete(SSR_TDRE));
    assert!(rx.is_rx_ready(SSR_RDRF));
    assert!(!rx.is_rx_ready(0));
}

#[test]
fn read_byte_reports_errors_before_data() {
    let clocks = ClockConfig::uno_r4().clocks();
    let (mut serial, _) = Serial::new(0u8, (), Config::baud(9_600), &clocks).ok().unwrap();
    let mut rx = serial.rx();
    let all = SSR_ORER | SSR_FER | SSR_PER | SSR_RDRF | SSR_TDRE;
    assert_eq!(rx.read_byte(all), ReadStep::Fail { error: Error::Overrun, ssr: all & !SSR_ORER });
    let no_orer = all & !SSR_ORER;
    assert_eq!(rx.read_byte(no_orer), ReadStep::Fail { error: Error::Framing, ssr: no_orer & !SSR_FER });
    let parity_only = SSR_PER | SSR_RDRF;
    assert_eq!(rx.read_byte(parity_only), ReadStep::Fail { error: Error::Parity, ssr: SSR_RDRF });
    assert_eq!(rx.read_byte(SSR_RDRF | SSR_TDRE), ReadStep::Data);
    assert_eq!(rx.read_byte(SSR_TDRE), ReadStep::WouldBlock);
}

#[test]
fn filling_a_buffer_stops_at_a_pending_error() {
    let clocks = ClockConfig::uno_r4().clocks();
    let (mut serial, _) = Serial::new(0u8, (), Config::baud(9_600), &clocks).ok().unwrap();
    let rx = serial.rx();
    assert!(rx.take_more(SSR_RDRF | SSR_TDRE));
    assert!(!rx.take_more(SSR_TDRE));
    // A byte is waiting, but so is an error: leave both for the next read.
    assert!(!rx.take_more(SSR_RDRF | SSR_ORER));
    assert!(!rx.take_more(SSR_RDRF | SSR_FER));
    assert!(!rx.take_more(SSR_RDRF | SSR_PER));
}
