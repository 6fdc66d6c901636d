use uno_r4_hal::gpio::{
    is_high, is_set_high, set_level, toggle, write_pfs, AltFunction, DriveStrength, Floating, Input, Pin, PinState,
    PFS_ASEL, PFS_DSCR, PFS_ISEL, PFS_NCODR, PFS_PCR, PFS_PDR, PFS_PMR, PFS_PODR,
};

fn p102() -> Pin<1, 2, Input<Floating>> {
    Pin::new()
}

#[test]
fn mode_words() {
    let (_, w) = p102().into_floating_input();
    assert_eq!((w.port, w.pin, w.first, w.second), (1, 2, 0, None));
    let (_, w) = p102().into_pull_up_input();
    assert_eq!(w.first, PFS_PCR);
    let (_, w) = p102().into_push_pull_output();
    assert_eq!(w.first, PFS_PDR);
    let (_, w) = p102().into_push_pull_output_in_state(PinState::High);
    assert_eq!(w.first, PFS_PDR | PFS_PODR);
    let (_, w) = p102().into_open_drain_output();
    assert_eq!(w.first, PFS_PDR | PFS_NCODR | PFS_PODR);
    let (_, w) = p102().into_open_drain_output_in_state(PinState::Low);
    assert_eq!(w.first, PFS_PDR | PFS_NCODR);
    let (_, w) = p102().into_analog();
    assert_eq!(w.first, PFS_ASEL);
}

#[test]
fn alternate_modes_mux_out_then_in() {
    let (_, w) = p102().into_alternate(AltFunction::Spi);
    assert_eq!(w.first, 0b00110 << 24);
    assert_eq!(w.second, Some(PFS_PMR | (0b00110 << 24)));
    let (_, w) = p102().into_alternate_open_drain(AltFunction::Iic);
    assert_eq!(w.first, PFS_NCODR | (0b00111 << 24));
    assert_eq!(w.second, Some(PFS_PMR | PFS_NCODR | (0b00111 << 24)));
    let (_, w) = p102().into_alternate_analog(AltFunction::Ctsu);
    assert_eq!(w.second, Some(PFS_PMR | PFS_ASEL | (0b01100 << 24)));
    let w = write_pfs(9, 15, PFS_PMR | 7);
    assert_eq!((w.port, w.pin, w.first, w.second), (9, 15, 7, Some(PFS_PMR | 7)));
    assert_eq!(AltFunction::Trace.psel(), 0b11010);
}

#[test]
fn drive_strength_and_irq_keep_the_other_bits() {
    let mut pin = p102();
    let w = pin.set_drive_strength(PFS_PDR | PFS_PODR, DriveStrength::High);
    assert_eq!(w.first, PFS_PDR | PFS_PODR | PFS_DSCR);
    let w = pin.set_drive_strength(PFS_PDR | PFS_DSCR, DriveStrength::Normal);
    assert_eq!(w.first, PFS_PDR);
    let w = pin.set_irq_enabled(PFS_PCR, true);
    assert_eq!(w.first, PFS_PCR | PFS_ISEL);
    let w = pin.set_irq_enabled(PFS_PMR | PFS_ISEL | (3 << 24), false);
    assert_eq!(w.first, 3 << 24);
    assert_eq!(w.second, Some(PFS_PMR | (3 << 24)));
}

#[test]
fn erasing_keeps_port_and_number() {
    let pin: Pin<4, 11, Input<Floating>> = Pin::new();
    assert_eq!(pin.mask(), 1 << 11);
    let partial = pin.erase_number();
    assert_eq!(partial.mask(), 1 << 11);
    let erased = partial.erase();
    assert_eq!((erased.port(), erased.number()), (4, 11));
    assert_eq!(erased.mask(), 1 << 11);
    let direct = p102().erase();
    assert_eq!((direct.port(), direct.number()), (1, 2));
}

#[test]
fn level_words() {
    let mask = 1u32 << 5;
    assert_eq!(set_level(mask, true), 0x20);
    assert_eq!(set_level(mask, false), 0x20_0000);
    assert!(is_set_high(0x20_0000, mask));
    assert!(!is_set_high(0x20, mask));
    assert!(is_high(0x20, mask));
    assert!(!is_high(0x20_0000, mask));
    // A pin latched high is driven low, and the other way round.
    assert_eq!(toggle(0x20_0000, mask), 0x20_0000);
    assert_eq!(toggle(0, mask), 0x20);
}
