use uno_r4_hal::i2c::{
    calc_bitrate, finish_request, transaction_needs_bus, transaction_outcome, FinishRequest, ICCR2_RS,
    ICCR2_SP, icmr3_ack, icmr3_hold, icmr3_nack, icmr3_release, BitRate, ICMR3_ACKBT, ICMR3_ACKWP, ICMR3_IDLE,
    ICMR3_WAIT,
};
use uno_r4_hal::clock::Config as ClockConfig;
use uno_r4_hal::i2c::{
    address_byte, check_nack, clear_status, plan_runs, read_address_done, read_byte_step, read_run_start, Config,
    Error, Finish, I2c, OpKind, Opening, Run, ICSR2_AL, ICSR2_NACKF, ICSR2_RDRF, ICSR2_STOP, ICSR2_TDRE,
};

fn achieved(pclkb: u32, r: BitRate) -> u32 {
    let counter = pclkb >> r.cks;
    counter / (r.brh as u32 + 1 + r.brl as u32 + 1)
}

#[test]
fn standard_and_fast_mode_land_close() {
    for pclkb in [24_000_000u32, 48_000_000] {
        for target in [100_000u32, 400_000] {
            let r = calc_bitrate(pclkb, target).expect("representable");
            let got = achieved(pclkb, r);
            let error = got.abs_diff(target) * 100 / target;
            assert!(error <= 10, "{pclkb} -> {target}: got {got}");
            // Every I2C mode wants the low period at least as long as the high.
            assert!(r.brl >= r.brh, "low period must not be shorter than high");
        }
    }
}

#[test]
fn rejects_impossible_frequencies() {
    assert!(calc_bitrate(24_000_000, 0).is_none());
    // Faster than PCLKB/2 cannot be counted out.
    assert!(calc_bitrate(24_000_000, 20_000_000).is_none());
}

#[test]
fn bitrate_for_100khz_from_24mhz() {
    // 24 MHz / 100 kHz = 240 counts: /4 gives 60, which fits; 60 * 5 / 9 = 33,
    // clamped to 32 low counts, and 28 high counts.
    let r = calc_bitrate(24_000_000, 100_000).unwrap();
    assert_eq!(r, BitRate { cks: 2, brh: 27, brl: 31 });
    assert_eq!((r.brh as u32 + 1) + (r.brl as u32 + 1), (24_000_000 >> 2) / 100_000);
}

#[test]
fn bitrate_smallest_totals_split_as_documented() {
    // A two-count period splits 1:1.
    assert_eq!(calc_bitrate(2_000, 1_000), Some(BitRate { cks: 0, brh: 0, brl: 0 }));
    // A three-count period gives the low phase the larger share.
    assert_eq!(calc_bitrate(3_000, 1_000), Some(BitRate { cks: 0, brh: 0, brl: 1 }));
    // So do five and seven counts: 24 MHz / 8 MHz is 3 counts, low 2 and high 1.
    assert_eq!(calc_bitrate(5_000, 1_000), Some(BitRate { cks: 0, brh: 1, brl: 2 }));
    assert_eq!(calc_bitrate(7_000, 1_000), Some(BitRate { cks: 0, brh: 2, brl: 3 }));
    assert_eq!(calc_bitrate(24_000_000, 8_000_000), Some(BitRate { cks: 0, brh: 0, brl: 1 }));
    // Nothing fits for a single count at every prescaler.
    assert_eq!(calc_bitrate(1_000, 1_000), None);
}

#[test]
fn config_constructors() {
    assert_eq!(Config::standard().frequency, 100_000);
    assert_eq!(Config::fast().frequency, 400_000);
    assert_eq!(Config::hz(1_000).frequency, 1_000);
    assert!(Config::hz(1_000).noise_filter);
    assert_eq!(Config::default(), Config::standard());
}

#[test]
fn i2c_new_reports_unsupported_frequency() {
    let clocks = ClockConfig::uno_r4().clocks();
    assert!(matches!(I2c::new(1u8, (), Config::hz(0), &clocks), Err(Error::UnsupportedFrequency)));
    let (i2c, rate) = I2c::new(1u8, (), Config::fast(), &clocks).ok().unwrap();
    assert_eq!(Some(rate), calc_bitrate(24_000_000, 400_000));
    assert_eq!(i2c.release(), (1u8, ()));
}

#[test]
fn nack_and_arbitration_loss() {
    assert_eq!(check_nack(ICSR2_AL | ICSR2_NACKF, Error::NoAcknowledgeData), Err(Error::ArbitrationLoss));
    assert_eq!(check_nack(ICSR2_NACKF, Error::NoAcknowledgeAddress), Err(Error::NoAcknowledgeAddress));
    assert_eq!(check_nack(ICSR2_NACKF, Error::NoAcknowledgeData), Err(Error::NoAcknowledgeData));
    assert_eq!(check_nack(ICSR2_TDRE, Error::NoAcknowledgeData), Ok(()));
    assert_eq!(clear_status(0xff), 0xff & !(ICSR2_STOP | ICSR2_NACKF | ICSR2_AL));
    assert!(read_address_done(ICSR2_RDRF));
    assert!(read_address_done(ICSR2_NACKF));
    assert!(!read_address_done(ICSR2_TDRE));
}

#[test]
fn address_byte_puts_the_read_bit_low() {
    assert_eq!(address_byte(0x68, false), 0xd0);
    assert_eq!(address_byte(0x68, true), 0xd1);
    assert_eq!(address_byte(0x7f, true), 0xff);
}

#[test]
fn runs_merge_consecutive_operations() {
    let ops = [OpKind::Write(1), OpKind::Write(2), OpKind::Read(3), OpKind::Read(4), OpKind::Write(5)];
    let runs = plan_runs(&ops);
    assert_eq!(
        runs,
        vec![
            Run { start: 0, end: 2, is_read: false, total: 0, opening: Opening::Start, finish: Finish::Restart },
            Run { start: 2, end: 4, is_read: true, total: 7, opening: Opening::RepeatedStart, finish: Finish::Restart },
            Run { start: 4, end: 5, is_read: false, total: 0, opening: Opening::RepeatedStart, finish: Finish::Stop },
        ]
    );
    assert!(plan_runs(&[]).is_empty());
    assert_eq!(
        plan_runs(&[OpKind::Read(0)]),
        vec![Run { start: 0, end: 1, is_read: true, total: 0, opening: Opening::Start, finish: Finish::Stop }]
    );
}

#[test]
fn read_run_schedule() {
    assert_eq!(read_run_start(0), Err(Error::ZeroLengthRead));
    assert_eq!(read_run_start(1), Ok(true));
    assert_eq!(read_run_start(3), Ok(false));
    let steps: Vec<(bool, bool)> = (0..3).map(|i| {
        let s = read_byte_step(i, 3);
        (s.arm_nack, s.queue_finish)
    }).collect();
    assert_eq!(steps, vec![(false, false), (true, false), (false, true)]);
    let one = read_byte_step(0, 1);
    assert!(!one.arm_nack && one.queue_finish);
}

#[test]
fn bit_rate_and_filter_register_words() {
    let r = BitRate { cks: 2, brh: 27, brl: 31 };
    assert_eq!(r.icmr1(), 0x28);
    assert_eq!(r.icbrh(), 0xE0 | 27);
    assert_eq!(r.icbrl(), 0xFF);
    assert_eq!(Config::standard().icfer(), 0x70);
    let mut quiet = Config::fast();
    quiet.noise_filter = false;
    assert_eq!(quiet.icfer(), 0x50);
}

#[test]
fn icmr3_words_arm_and_release_the_nack() {
    let held = icmr3_nack(icmr3_hold(ICMR3_IDLE));
    assert_eq!(held, ICMR3_WAIT | ICMR3_ACKWP | ICMR3_ACKBT);
    let released = icmr3_ack(icmr3_release(held));
    assert_eq!(released, ICMR3_IDLE);
}

#[test]
fn only_a_final_write_run_stops_by_itself() {
    let runs = plan_runs(&[OpKind::Write(1), OpKind::Read(2)]);
    assert_eq!(runs[0].opening, Opening::Start);
    assert_eq!(runs[1].opening, Opening::RepeatedStart);
    assert!(!runs[0].stop_after());
    assert!(!runs[1].stop_after());
    let runs = plan_runs(&[OpKind::Read(2), OpKind::Write(1)]);
    assert!(!runs[0].stop_after());
    assert!(runs[1].stop_after());
}

#[test]
fn a_stop_is_awaited_and_a_repeated_start_is_not() {
    assert_eq!(
        finish_request(Finish::Stop),
        FinishRequest { clear_stop_flag: true, iccr2_bit: ICCR2_SP, await_stop: true }
    );
    assert_eq!(
        finish_request(Finish::Restart),
        FinishRequest { clear_stop_flag: false, iccr2_bit: ICCR2_RS, await_stop: false }
    );
}

#[test]
fn empty_and_failed_transactions() {
    assert!(!transaction_needs_bus(0));
    assert!(transaction_needs_bus(3));
    assert_eq!(transaction_outcome(Ok(())), (false, Ok(())));
    assert_eq!(transaction_outcome(Err(Error::NoAcknowledgeData)), (true, Err(Error::NoAcknowledgeData)));
}
