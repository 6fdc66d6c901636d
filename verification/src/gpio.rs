//! General-purpose I/O.
//!
//! Each pin is a distinct zero-sized type, `Pin<PORT, NUMBER, MODE>`, so the mode a
//! pin is in is checked at compile time and a pin can only be owned by one place.
//!
//! A mode change is a single write of the pin's `PmnPFS` register, which holds
//! direction, pull-up, open-drain, analog and peripheral-mux selection in one 32-bit
//! word. The conversions here hand back the pin in its new mode together with the
//! [`PfsWrite`] that puts the hardware in that mode; performing it is the caller's
//! part. Level changes go through `PCNTR3`, whose low half sets pins and whose high
//! half clears them, so [`set_level`] computes a one-hot word that cannot disturb
//! the other pins on the port.
use vstd::prelude::*;
use core::marker::PhantomData;

verus! {

/// `PmnPFS.PODR`: output level.
pub const PFS_PODR: u32 = 0x1;
/// `PmnPFS.PDR`: output direction.
pub const PFS_PDR: u32 = 0x4;
/// `PmnPFS.PCR`: pull-up.
pub const PFS_PCR: u32 = 0x10;
/// `PmnPFS.NCODR`: N-channel open drain.
pub const PFS_NCODR: u32 = 0x40;
/// `PmnPFS.DSCR`: high drive strength.
pub const PFS_DSCR: u32 = 0x400;
/// `PmnPFS.ISEL`: IRQ input.
pub const PFS_ISEL: u32 = 0x4000;
/// `PmnPFS.ASEL`: analog input.
pub const PFS_ASEL: u32 = 0x8000;
/// `PmnPFS.PMR`: peripheral mode.
pub const PFS_PMR: u32 = 0x10000;
/// Position of `PmnPFS.PSEL`, the peripheral function select.
pub const PFS_PSEL_SHIFT: u32 = 24;

/// A peripheral function that can be muxed onto a pin (`PmnPFS.PSEL`).
///
/// These are *mux groups*, not peripheral instances. A pin reaches at most one
/// function per group, and which instance that is depends on the pin: the
/// "Multi-Function Pin Controller" table in the RA4M1 hardware manual is the
/// authority. `SciGroup1` and `SciGroup2` are **not** SCI channels 1 and 2.
#[derive(Clone, Copy, PartialEq, Eq, Debug, Structural)]
pub enum AltFunction {
    /// AGT timer I/O.
    Agt,
    /// GPT timer I/O, mux group 1.
    GptGroup1,
    /// GPT timer I/O, mux group 2. This is the group the Uno R4's GPT header pins use.
    GptGroup2,
    /// SCI mux group 1: `RXDn`, `TXDn`, `SCKn`, `CTSn`.
    SciGroup1,
    /// SCI mux group 2.
    SciGroup2,
    /// SPI: `RSPCKn`, `MOSIn`, `MISOn`, `SSLn`.
    Spi,
    /// IIC: `SCLn`, `SDAn`.
    Iic,
    /// Key interrupt input.
    Kint,
    /// CLKOUT, comparator, RTC output.
    ClkOut,
    /// CAC, ADC trigger.
    CacAdc,
    /// External bus.
    Bus,
    /// Capacitive touch sensing unit.
    Ctsu,
    /// Segment LCD controller.
    Lcdc,
    /// CAN.
    Can,
    /// Serial sound interface.
    Ssi,
    /// USB full-speed.
    UsbFs,
    /// Trace output.
    Trace,
}

impl AltFunction {
    /// The 5-bit `PSEL` encoding.
    pub open spec fn spec_psel(self) -> u32 {
        match self {
            AltFunction::Agt => 0b00001,
            AltFunction::GptGroup1 => 0b00010,
            AltFunction::GptGroup2 => 0b00011,
            AltFunction::SciGroup1 => 0b00100,
            AltFunction::SciGroup2 => 0b00101,
            AltFunction::Spi => 0b00110,
            AltFunction::Iic => 0b00111,
            AltFunction::Kint => 0b01000,
            AltFunction::ClkOut => 0b01001,
            AltFunction::CacAdc => 0b01010,
            AltFunction::Bus => 0b01011,
            AltFunction::Ctsu => 0b01100,
            AltFunction::Lcdc => 0b01101,
            AltFunction::Can => 0b10000,
            AltFunction::Ssi => 0b10010,
            AltFunction::UsbFs => 0b10011,
            AltFunction::Trace => 0b11010,
        }
    }

    /// The 5-bit `PSEL` encoding.
    pub fn psel(self) -> (r: u32)
        ensures
            r == self.spec_psel(),
            r < 32,
    {
        match self {
            AltFunction::Agt => 0b00001,
            AltFunction::GptGroup1 => 0b00010,
            AltFunction::GptGroup2 => 0b00011,
            AltFunction::SciGroup1 => 0b00100,
            AltFunction::SciGroup2 => 0b00101,
            AltFunction::Spi => 0b00110,
            AltFunction::Iic => 0b00111,
            AltFunction::Kint => 0b01000,
            AltFunction::ClkOut => 0b01001,
            AltFunction::CacAdc => 0b01010,
            AltFunction::Bus => 0b01011,
            AltFunction::Ctsu => 0b01100,
            AltFunction::Lcdc => 0b01101,
            AltFunction::Can => 0b10000,
            AltFunction::Ssi => 0b10010,
            AltFunction::UsbFs => 0b10011,
            AltFunction::Trace => 0b11010,
        }
    }
}

/// The position of a mux group in the pin-function table, which lists the groups
/// in order of their `PSEL` codes.
pub open spec fn mux_table_position(a: AltFunction) -> int {
    match a {
        AltFunction::Agt => 0,
        AltFunction::GptGroup1 => 1,
        AltFunction::GptGroup2 => 2,
        AltFunction::SciGroup1 => 3,
        AltFunction::SciGroup2 => 4,
        AltFunction::Spi => 5,
        AltFunction::Iic => 6,
        AltFunction::Kint => 7,
        AltFunction::ClkOut => 8,
        AltFunction::CacAdc => 9,
        AltFunction::Bus => 10,
        AltFunction::Ctsu => 11,
        AltFunction::Lcdc => 12,
        AltFunction::Can => 13,
        AltFunction::Ssi => 14,
        AltFunction::UsbFs => 15,
        AltFunction::Trace => 16,
    }
}

/// Each mux group selects the pin with its own `PSEL` code: a nonzero 5-bit value
/// (zero leaves the pin to the port), never shared with another group, rising in
/// the order of the pin-function table, with the second GPT and SCI groups right
/// after the first.
pub proof fn lemma_psel_codes_select_one_group(a: AltFunction, b: AltFunction)
    ensures
        1 <= a.spec_psel() < 32,
        a.spec_psel() == b.spec_psel() ==> a == b,
        AltFunction::GptGroup2.spec_psel() == AltFunction::GptGroup1.spec_psel() + 1,
        AltFunction::SciGroup2.spec_psel() == AltFunction::SciGroup1.spec_psel() + 1,
        mux_table_position(a) < mux_table_position(b) ==> a.spec_psel() < b.spec_psel(),
{
}

/// Output drive strength (`PmnPFS.DSCR`).
#[derive(Clone, Copy, PartialEq, Eq, Debug, Default, Structural)]
pub enum DriveStrength {
    /// Normal drive.
    #[default]
    Normal,
    /// High drive. Only supported on some pins.
    High,
}

/// A digital level.
#[derive(Clone, Copy, PartialEq, Eq, Debug, Structural)]
pub enum PinState {
    /// Low.
    Low,
    /// High.
    High,
}

// --- Type states -----------------------------------------------------------------

/// Input mode (type state).
#[derive(Debug)]
pub struct Input<MODE> {
    _mode: PhantomData<MODE>,
}

/// No pull resistor (type state).
#[derive(Debug)]
pub struct Floating;

/// Internal pull-up enabled (type state).
#[derive(Debug)]
pub struct PullUp;

/// Output mode (type state).
#[derive(Debug)]
pub struct Output<MODE> {
    _mode: PhantomData<MODE>,
}

/// Push-pull output (type state).
#[derive(Debug)]
pub struct PushPull;

/// N-channel open-drain output (type state).
#[derive(Debug)]
pub struct OpenDrain;

/// Analog input, digital buffer disconnected (type state).
#[derive(Debug)]
pub struct Analog;

/// Driven by a peripheral rather than the port (type state).
#[derive(Debug)]
pub struct Alternate;

// --- PFS writes ------------------------------------------------------------------

/// The `PmnPFS` writes that put one pin in a mode: `first`, then `second` if any.
///
/// The manual forbids changing `PSEL` while the pin is still handed to a peripheral,
/// so a mux change is always mux-out (`PMR` clear) then mux-in. Both writes must be
/// made with `PWPR.PFSWE` unlocked.
#[derive(Clone, Copy, PartialEq, Eq, Debug, Structural)]
pub struct PfsWrite {
    /// Port index, 0..=9.
    pub port: u8,
    /// Pin number within the port, 0..=15.
    pub pin: u8,
    /// The first value written, with `PMR` clear.
    pub first: u32,
    /// The second value written, present when the mode hands the pin to a peripheral.
    pub second: Option<u32>,
}

impl PfsWrite {
    /// The value the register holds once the writes are done.
    pub open spec fn final_value(self) -> u32 {
        match self.second {
            Some(v) => v,
            None => self.first,
        }
    }
}

/// The writes of `value` to the `PmnPFS` register of port `p`, pin `n`.
pub open spec fn spec_write_pfs(p: u8, n: u8, value: u32) -> PfsWrite {
    PfsWrite {
        port: p,
        pin: n,
        first: value & !PFS_PMR,
        second: if value & PFS_PMR != 0 { Some(value) } else { None },
    }
}

/// Write a complete `PmnPFS` value: `PMR` cleared first, then the value itself when
/// it hands the pin to a peripheral.
pub fn write_pfs(p: u8, n: u8, value: u32) -> (r: PfsWrite)
    ensures
        r == spec_write_pfs(p, n, value),
        r.final_value() == value,
        r.first & PFS_PMR == 0,
{
    let first = value & !PFS_PMR;
    assert(value & 0x10000 == 0 ==> value & !0x10000u32 == value) by (bit_vector);
    assert((value & !0x10000u32) & 0x10000 == 0) by (bit_vector);
    if value & PFS_PMR != 0 {
        PfsWrite { port: p, pin: n, first, second: Some(value) }
    } else {
        PfsWrite { port: p, pin: n, first, second: None }
    }
}

/// The `PDR`/`PODR` bits of an output driven to `state`.
pub open spec fn level_bits(state: PinState) -> u32 {
    if state == PinState::High { PFS_PODR } else { 0 }
}

// --- The pin ---------------------------------------------------------------------

/// A single I/O pin.
///
/// `P` is the port index (0..=9) and `N` the pin number within the port (0..=15).
/// Both are const generics, so a pin carries no runtime data at all.
#[derive(Debug)]
pub struct Pin<const P: u8, const N: u8, MODE> {
    _mode: PhantomData<MODE>,
}

impl<const P: u8, const N: u8, MODE> Pin<P, N, MODE> {
    /// A pin names a real port and pin number.
    #[verifier::type_invariant]
    spec fn inv(self) -> bool {
        P <= 9 && N <= 15
    }

    /// The pin in its current mode. Only the port splitter may call this: owning a
    /// `Pin` is what makes it the only handle on the pin.
    pub fn new() -> Self
        requires
            P <= 9,
            N <= 15,
    {
        Pin { _mode: PhantomData }
    }

    /// The pin's bit in the port registers.
    pub fn mask(&self) -> (m: u32)
        ensures
            m == 1u32 << N,
            N <= 15,
            P <= 9,
    {
        proof {
            use_type_invariant(self);
        }
        1u32 << N
    }

    /// Reconfigure the pin, consuming it and handing back the new mode with the
    /// register writes that select it.
    fn convert<NEW>(self, pfs_value: u32) -> (r: (Pin<P, N, NEW>, PfsWrite))
        ensures
            r.1 == spec_write_pfs(P, N, pfs_value),
    {
        proof {
            use_type_invariant(&self);
        }
        let w = write_pfs(P, N, pfs_value);
        (Pin { _mode: PhantomData }, w)
    }

    /// High-impedance input with no pull resistor.
    pub fn into_floating_input(self) -> (r: (Pin<P, N, Input<Floating>>, PfsWrite))
        ensures
            r.1 == spec_write_pfs(P, N, 0),
    {
        self.convert(0)
    }

    /// Input with the internal pull-up enabled.
    pub fn into_pull_up_input(self) -> (r: (Pin<P, N, Input<PullUp>>, PfsWrite))
        ensures
            r.1 == spec_write_pfs(P, N, PFS_PCR),
    {
        self.convert(PFS_PCR)
    }

    /// Push-pull output, initially low.
    pub fn into_push_pull_output(self) -> (r: (Pin<P, N, Output<PushPull>>, PfsWrite))
        ensures
            r.1 == spec_write_pfs(P, N, PFS_PDR),
    {
        assert(0x4u32 | 0u32 == 0x4u32) by (bit_vector);
        self.into_push_pull_output_in_state(PinState::Low)
    }

    /// Push-pull output, driven to `state` by the same write that switches the
    /// direction, so the pin never briefly drives the other level.
    pub fn into_push_pull_output_in_state(self, state: PinState) -> (r: (Pin<P, N, Output<PushPull>>, PfsWrite))
        ensures
            r.1 == spec_write_pfs(P, N, PFS_PDR | level_bits(state)),
    {
        let level = match state {
            PinState::High => PFS_PODR,
            PinState::Low => 0,
        };
        self.convert(PFS_PDR | level)
    }

    /// N-channel open-drain output, initially released (high-impedance).
    pub fn into_open_drain_output(self) -> (r: (Pin<P, N, Output<OpenDrain>>, PfsWrite))
        ensures
            r.1 == spec_write_pfs(P, N, PFS_PDR | PFS_NCODR | PFS_PODR),
    {
        self.into_open_drain_output_in_state(PinState::High)
    }

    /// N-channel open-drain output, driven to `state` as the direction is switched.
    pub fn into_open_drain_output_in_state(self, state: PinState) -> (r: (Pin<P, N, Output<OpenDrain>>, PfsWrite))
        ensures
            r.1 == spec_write_pfs(P, N, PFS_PDR | PFS_NCODR | level_bits(state)),
    {
        let level = match state {
            PinState::High => PFS_PODR,
            PinState::Low => 0,
        };
        self.convert(PFS_PDR | PFS_NCODR | level)
    }

    /// Analog input. Disconnects the digital input buffer, which is required before
    /// the pin is used as an ADC or DAC channel.
    pub fn into_analog(self) -> (r: (Pin<P, N, Analog>, PfsWrite))
        ensures
            r.1 == spec_write_pfs(P, N, PFS_ASEL),
    {
        self.convert(PFS_ASEL)
    }

    /// Hand the pin over to a peripheral.
    pub fn into_alternate(self, function: AltFunction) -> (r: (Pin<P, N, Alternate>, PfsWrite))
        ensures
            r.1 == spec_write_pfs(P, N, PFS_PMR | (function.spec_psel() << PFS_PSEL_SHIFT)),
    {
        let psel = function.psel();
        self.convert(PFS_PMR | (psel << PFS_PSEL_SHIFT))
    }

    /// Hand the pin to a peripheral with the output stage in open-drain mode, which is
    /// what I2C needs.
    pub fn into_alternate_open_drain(self, function: AltFunction) -> (r: (Pin<P, N, Alternate>, PfsWrite))
        ensures
            r.1 == spec_write_pfs(P, N, PFS_PMR | PFS_NCODR | (function.spec_psel() << PFS_PSEL_SHIFT)),
    {
        let psel = function.psel();
        self.convert(PFS_PMR | PFS_NCODR | (psel << PFS_PSEL_SHIFT))
    }

    /// Hand the pin to a peripheral, additionally enabling the analog buffer.
    pub fn into_alternate_analog(self, function: AltFunction) -> (r: (Pin<P, N, Alternate>, PfsWrite))
        ensures
            r.1 == spec_write_pfs(P, N, PFS_PMR | PFS_ASEL | (function.spec_psel() << PFS_PSEL_SHIFT)),
    {
        let psel = function.psel();
        self.convert(PFS_PMR | PFS_ASEL | (psel << PFS_PSEL_SHIFT))
    }

    /// Set the output drive strength, given the pin's current `PmnPFS` value.
    ///
    /// Only `DSCR` changes; every other bit of the register is written back as read.
    pub fn set_drive_strength(&mut self, current: u32, strength: DriveStrength) -> (r: PfsWrite)
        ensures
            r == spec_write_pfs(
                P,
                N,
                if strength == DriveStrength::High { current | PFS_DSCR } else { current & !PFS_DSCR },
            ),
            r.final_value() & !PFS_DSCR == current & !PFS_DSCR,
            (r.final_value() & PFS_DSCR != 0) == (strength == DriveStrength::High),
    {
        proof {
            use_type_invariant(&*self);
        }
        let v = match strength {
            DriveStrength::Normal => current & !PFS_DSCR,
            DriveStrength::High => current | PFS_DSCR,
        };
        assert((current | 0x400) & !0x400u32 == current & !0x400u32 && (current | 0x400) & 0x400 != 0) by (bit_vector);
        assert((current & !0x400u32) & !0x400u32 == current & !0x400u32 && (current & !0x400u32) & 0x400 == 0) by (bit_vector);
        write_pfs(P, N, v)
    }

    /// Route this pin to the IRQ input of the ICU (`PmnPFS.ISEL`), given the pin's
    /// current `PmnPFS` value.
    ///
    /// Only `ISEL` changes; every other bit of the register is written back as read.
    pub fn set_irq_enabled(&mut self, current: u32, enabled: bool) -> (r: PfsWrite)
        ensures
            r == spec_write_pfs(P, N, if enabled { current | PFS_ISEL } else { current & !PFS_ISEL }),
            r.final_value() & !PFS_ISEL == current & !PFS_ISEL,
            (r.final_value() & PFS_ISEL != 0) == enabled,
    {
        proof {
            use_type_invariant(&*self);
        }
        let v = if enabled {
            current | PFS_ISEL
        } else {
            current & !PFS_ISEL
        };
        assert((current | 0x4000) & !0x4000u32 == current & !0x4000u32 && (current | 0x4000) & 0x4000 != 0) by (bit_vector);
        assert((current & !0x4000u32) & !0x4000u32 == current & !0x4000u32 && (current & !0x4000u32) & 0x4000 == 0) by (bit_vector);
        write_pfs(P, N, v)
    }

    /// Erase the pin number, keeping the port in the type.
    pub fn erase_number(self) -> (r: PartiallyErasedPin<P, MODE>)
        ensures
            r.spec_number() == N,
    {
        proof {
            use_type_invariant(&self);
        }
        PartiallyErasedPin { n: N, _mode: PhantomData }
    }

    /// Erase both port and pin number, for storing pins in an array.
    pub fn erase(self) -> (r: ErasedPin<MODE>)
        ensures
            r.spec_port() == P,
            r.spec_number() == N,
    {
        proof {
            use_type_invariant(&self);
        }
        ErasedPin { p: P, n: N, _mode: PhantomData }
    }
}

/// A pin handed to a peripheral. The drivers' `Pins` traits accept tuples of these.
pub trait AlternatePin {}

impl<const P: u8, const N: u8> AlternatePin for Pin<P, N, Alternate> {}

// --- Erased pins -----------------------------------------------------------------

/// A pin whose number is a runtime value but whose port is still in the type.
#[derive(Debug)]
pub struct PartiallyErasedPin<const P: u8, MODE> {
    n: u8,
    _mode: PhantomData<MODE>,
}

impl<const P: u8, MODE> PartiallyErasedPin<P, MODE> {
    /// It still names a real port and pin number.
    #[verifier::type_invariant]
    spec fn inv(self) -> bool {
        P <= 9 && self.n <= 15
    }

    /// The pin number.
    pub closed spec fn spec_number(self) -> u8 {
        self.n
    }

    /// The pin's bit in the port registers.
    pub fn mask(&self) -> (m: u32)
        ensures
            m == 1u32 << self.spec_number(),
            self.spec_number() <= 15,
    {
        proof {
            use_type_invariant(self);
        }
        1u32 << self.n
    }

    /// Erase the port as well.
    pub fn erase(self) -> (r: ErasedPin<MODE>)
        ensures
            r.spec_port() == P,
            r.spec_number() == self.spec_number(),
    {
        proof {
            use_type_invariant(&self);
        }
        ErasedPin { p: P, n: self.n, _mode: PhantomData }
    }
}

/// A pin with both port and number erased, so pins from different ports can share an
/// array.
#[derive(Debug)]
pub struct ErasedPin<MODE> {
    p: u8,
    n: u8,
    _mode: PhantomData<MODE>,
}

impl<MODE> ErasedPin<MODE> {
    /// It still names a real port and pin number.
    #[verifier::type_invariant]
    spec fn inv(self) -> bool {
        self.p <= 9 && self.n <= 15
    }

    /// The port index.
    pub closed spec fn spec_port(self) -> u8 {
        self.p
    }

    /// The pin number.
    pub closed spec fn spec_number(self) -> u8 {
        self.n
    }

    /// The pin's bit in the port registers.
    pub fn mask(&self) -> (m: u32)
        ensures
            m == 1u32 << self.spec_number(),
            self.spec_number() <= 15,
    {
        proof {
            use_type_invariant(self);
        }
        1u32 << self.n
    }

    /// The port index this pin came from.
    pub fn port(&self) -> (r: u8)
        ensures
            r == self.spec_port(),
            r <= 9,
    {
        proof {
            use_type_invariant(self);
        }
        self.p
    }

    /// The pin number this pin came from.
    pub fn number(&self) -> (r: u8)
        ensures
            r == self.spec_number(),
            r <= 15,
    {
        proof {
            use_type_invariant(self);
        }
        self.n
    }
}

// --- Level access ----------------------------------------------------------------

/// The `PCNTR3` word that drives the pins in `mask` high (`POSR`, bits 0..=15) or
/// low (`PORR`, bits 16..=31).
pub open spec fn level_word(mask: u32, high: bool) -> u32 {
    if high {
        mask
    } else {
        mask << 16u32
    }
}

/// The output latch (`PCNTR1.PODR`, bits 16..=31) of the pins in `mask` is high.
pub open spec fn latch_high(pcntr1: u32, mask: u32) -> bool {
    pcntr1 & (mask << 16u32) != 0
}

/// `PCNTR1` once `word` has been written to `PCNTR3`: each `POSR` bit sets the
/// latch of its pin, each `PORR` bit clears it, and zeroes change nothing.
pub open spec fn pcntr1_after(pcntr1: u32, word: u32) -> u32 {
    (pcntr1 | ((word & 0xffff) << 16u32)) & !(word & 0xffff_0000)
}

/// Bit `i` of `x` is set.
pub open spec fn bit_set(x: u32, i: u32) -> bool {
    (x >> i) & 1 == 1
}

/// The `PCNTR3` word that drives the pins in `mask` high or low. Zeroes have no
/// effect, so the other pins on the port are not disturbed.
pub fn set_level(mask: u32, high: bool) -> (r: u32)
    ensures
        r == level_word(mask, high),
        r == if high { mask } else { mask << 16u32 },
{
    if high {
        mask
    } else {
        mask << 16u32
    }
}

/// Is the output latch (`PCNTR1.PODR`, bits 16..=31) of the pin in `mask` high?
pub fn is_set_high(pcntr1: u32, mask: u32) -> (r: bool)
    ensures
        r == latch_high(pcntr1, mask),
        r == (pcntr1 & (mask << 16u32) != 0),
{
    pcntr1 & (mask << 16u32) != 0
}

/// Is the input level (`PCNTR2.PIDR`, bits 0..=15) of the pin in `mask` high?
pub fn is_high(pcntr2: u32, mask: u32) -> (r: bool)
    ensures
        r == (pcntr2 & mask != 0),
{
    pcntr2 & mask != 0
}

/// The `PCNTR3` word that drives the pin in `mask` to the opposite of its current
/// output latch, read from `PCNTR1`.
pub fn toggle(pcntr1: u32, mask: u32) -> (r: u32)
    ensures
        r == level_word(mask, !latch_high(pcntr1, mask)),
        r == if pcntr1 & (mask << 16u32) != 0 { mask << 16u32 } else { mask },
{
    set_level(mask, !is_set_high(pcntr1, mask))
}

/// Writing a pin's level word leaves that pin's output latch at the level asked
/// for and every other bit of `PCNTR1` as it was; so a toggle word flips the pin
/// and nothing else.
pub proof fn lemma_level_writes_touch_one_pin(n: u32, pcntr1: u32, high: bool)
    requires
        n < 16,
    ensures
        latch_high(pcntr1_after(pcntr1, level_word(1u32 << n, high)), 1u32 << n) == high,
        forall|i: u32|
            i < 32 && i != n + 16 ==> #[trigger] bit_set(pcntr1_after(pcntr1, level_word(1u32 << n, high)), i)
                == bit_set(pcntr1, i),
        latch_high(pcntr1_after(pcntr1, level_word(1u32 << n, !latch_high(pcntr1, 1u32 << n))), 1u32 << n)
            == !latch_high(pcntr1, 1u32 << n),
{
    assert(latch_high(pcntr1_after(pcntr1, level_word(1u32 << n, high)), 1u32 << n) == high) by (bit_vector)
        requires
            n < 16,
    ;
    assert(forall|i: u32|
        i < 32 && i != n + 16 ==> #[trigger] bit_set(pcntr1_after(pcntr1, level_word(1u32 << n, high)), i)
            == bit_set(pcntr1, i)) by (bit_vector)
        requires
            n < 16,
    ;
    let flipped = !latch_high(pcntr1, 1u32 << n);
    assert(latch_high(pcntr1_after(pcntr1, level_word(1u32 << n, flipped)), 1u32 << n) == flipped) by (bit_vector)
        requires
            n < 16,
    ;
}

} // verus!
