use uno_r4_hal::clock::{Config, Div, MainOscKind, Pll, PllDiv, SysClk};

#[test]
fn uno_r4_runs_at_48_and_24_mhz() {
    // "ICLK, PCLKA and PCLKD run at 48 MHz; PCLKB, PCLKC and FCLK at 24 MHz."
    let c = Config::uno_r4();
    assert!(c.is_valid());
    assert_eq!(c.source_hz(), 48_000_000);
    let clocks = c.clocks();
    assert_eq!(clocks.iclk(), 48_000_000);
    assert_eq!(clocks.pclka(), 48_000_000);
    assert_eq!(clocks.pclkd(), 48_000_000);
    assert_eq!(clocks.pclkb(), 24_000_000);
    assert_eq!(clocks.pclkc(), 24_000_000);
    assert_eq!(clocks.fclk(), 24_000_000);
    assert!(c.needs_high_speed_mode());
}

#[test]
fn moco_is_the_reset_configuration() {
    let c = Config::moco();
    assert_eq!(c, Config::default());
    assert_eq!(c.source_hz(), 8_000_000);
    assert_eq!(c.clocks().iclk(), 8_000_000);
    assert!(!c.needs_high_speed_mode());
    assert_eq!(c.sckdivcr(), 0);
    assert_eq!(c.sysclk.cksel(), 1);
}

#[test]
fn sckdivcr_places_every_divider() {
    let c = Config::uno_r4();
    assert_eq!(c.sckdivcr(), 0x1000_0110);
    let mut d = Config::moco();
    d.fck = Div::Div64;
    d.ick = Div::Div32;
    d.pcka = Div::Div16;
    d.pckb = Div::Div8;
    d.pckc = Div::Div4;
    d.pckd = Div::Div2;
    assert_eq!(d.sckdivcr(), 0x6500_4321);
    assert_eq!(Div::Div64.divisor(), 64);
}

#[test]
fn sources_and_validity() {
    let mut c = Config::moco();
    c.sysclk = SysClk::Hoco;
    c.hoco = 64_000_000;
    assert_eq!(c.source_hz(), 64_000_000);
    c.sysclk = SysClk::Loco;
    assert_eq!(c.source_hz(), 32_768);
    c.sysclk = SysClk::MainOsc;
    assert_eq!(c.source_hz(), 12_000_000);
    c.sysclk = SysClk::Pll;
    assert!(!c.is_valid());
    assert_eq!(c.source_hz(), 0);
    c.pll = Some(Pll { mul: 1, div: PllDiv::Div1 });
    assert!(!c.is_valid());
    c.pll = Some(Pll { mul: 31, div: PllDiv::Div4 });
    assert!(c.is_valid());
    assert_eq!(c.source_hz(), 12_000_000 * 31 / 4);
    assert_eq!(SysClk::Pll.cksel(), 5);
}

#[test]
fn pll_and_oscillator_registers() {
    let pll = Pll { mul: 8, div: PllDiv::Div2 };
    assert_eq!(pll.pllccr2(), 0x47);
    let mut c = Config::uno_r4();
    assert_eq!(c.momcr(), (false, false));
    c.main_osc = 8_000_000;
    c.main_osc_kind = MainOscKind::ExternalClock;
    assert_eq!(c.momcr(), (true, true));
}

#[test]
fn freezing_the_uno_r4_configuration() {
    let c = Config::uno_r4();
    assert!(c.source_in_range());
    let plan = c.freeze();
    assert!(plan.high_speed_mode);
    assert_eq!(plan.momcr, Some(0x00));
    assert_eq!(plan.pllccr2, Some(0x47));
    assert!(!plan.hoco);
    assert_eq!(plan.sckdivcr, 0x1000_0110);
    assert_eq!(plan.cksel, 5);
    assert_eq!(plan.clocks, c.clocks());
    assert_eq!(plan.clocks.pclkb(), 24_000_000);
}

#[test]
fn freezing_other_sources() {
    let plan = Config::moco().freeze();
    assert!(!plan.high_speed_mode);
    assert_eq!(plan.momcr, None);
    assert_eq!(plan.pllccr2, None);
    assert!(!plan.hoco);
    assert_eq!(plan.cksel, 1);
    assert_eq!(plan.clocks.iclk(), 8_000_000);

    let mut c = Config::moco();
    c.sysclk = SysClk::Hoco;
    let plan = c.freeze();
    assert!(plan.hoco);
    assert!(plan.high_speed_mode);
    assert_eq!(plan.momcr, None);
    assert_eq!(plan.cksel, 0);

    c.sysclk = SysClk::MainOsc;
    c.main_osc = 8_000_000;
    c.main_osc_kind = MainOscKind::ExternalClock;
    let plan = c.freeze();
    assert_eq!(plan.momcr, Some(0x48));
    assert_eq!(plan.pllccr2, None);
    assert_eq!(plan.cksel, 3);
}

#[test]
fn a_pll_output_past_32_bits_is_out_of_range() {
    let mut c = Config::uno_r4();
    c.main_osc = 4_000_000_000;
    c.pll = Some(Pll { mul: 31, div: PllDiv::Div1 });
    assert!(!c.source_in_range());
    c.pll = Some(Pll { mul: 2, div: PllDiv::Div4 });
    assert!(c.source_in_range());
    // The product passes 32 bits, but the output after the divider does not.
    assert_eq!(c.source_hz(), 2_000_000_000);
    assert!(Config::moco().source_in_range());
}

#[test]
fn pll_output_multiplies_before_dividing() {
    // main_osc * mul / div: a 12 000 001 Hz crystal gives 48 000 004 Hz, not the
    // 48 000 000 Hz that dividing first would.
    let mut c = Config::uno_r4();
    c.main_osc = 12_000_001;
    assert_eq!(c.source_hz(), 48_000_004);
    assert_eq!(c.clocks().iclk(), 48_000_004);
    c.pll = Some(Pll { mul: 3, div: PllDiv::Div4 });
    c.main_osc = 10;
    assert_eq!(c.source_hz(), 7);
}
