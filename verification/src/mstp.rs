//! Module-stop (clock gating) control.
//!
//! Every peripheral on the RA4M1 comes out of reset with its clock gated off by a
//! bit in `MSTPCRB`/`MSTPCRC`/`MSTPCRD`. Clearing the bit starts the module; setting
//! it again stops it. [`start`] and [`stop`] compute the new register word from the
//! one read back, touching only the bit that identifies the module; the caller writes
//! it back to the register named by [`ModuleStop::reg`] inside a critical section.
use vstd::prelude::*;

verus! {

/// Which module-stop control register holds a module's bit.
#[derive(Clone, Copy, PartialEq, Eq, Debug, Structural)]
pub enum Reg {
    /// `MSTPCRB`.
    B,
    /// `MSTPCRC`.
    C,
    /// `MSTPCRD`.
    D,
}

/// One peripheral's module-stop bit.
#[allow(non_camel_case_types)]
#[derive(Clone, Copy, PartialEq, Eq, Debug, Structural)]
pub enum ModuleStop {
    /// CAN0
    CAN0,
    /// IIC1 (I2C bus interface 1)
    IIC1,
    /// IIC0 (I2C bus interface 0)
    IIC0,
    /// USB 2.0 full-speed interface
    USBFS,
    /// SPI1
    SPI1,
    /// SPI0
    SPI0,
    /// SCI9
    SCI9,
    /// SCI2
    SCI2,
    /// SCI1
    SCI1,
    /// SCI0
    SCI0,
    /// Clock frequency accuracy measurement circuit
    CAC,
    /// CRC calculator
    CRC,
    /// Capacitive touch sensing unit
    CTSU,
    /// Segment LCD controller
    SLCDC,
    /// Synchronous serial interface 0
    SSIE0,
    /// Data operation circuit
    DOC,
    /// Event link controller
    ELC,
    /// AGT1
    AGT1,
    /// AGT0
    AGT0,
    /// GPT320 .. GPT323
    GPT32,
    /// GPT164 .. GPT169
    GPT16,
    /// Port output enable for GPT
    POEG,
    /// 14-bit A/D converter
    ADC140,
    /// 8-bit D/A converter
    DAC8,
    /// 12-bit D/A converter
    DAC12,
    /// Low-power analog comparator
    ACMPLP,
    /// Operational amplifier
    OPAMP,
}

impl ModuleStop {
    /// The register that holds this module's bit.
    pub open spec fn spec_reg(self) -> Reg {
        match self {
            ModuleStop::CAN0 => Reg::B,
            ModuleStop::IIC1 => Reg::B,
            ModuleStop::IIC0 => Reg::B,
            ModuleStop::USBFS => Reg::B,
            ModuleStop::SPI1 => Reg::B,
            ModuleStop::SPI0 => Reg::B,
            ModuleStop::SCI9 => Reg::B,
            ModuleStop::SCI2 => Reg::B,
            ModuleStop::SCI1 => Reg::B,
            ModuleStop::SCI0 => Reg::B,
            ModuleStop::CAC => Reg::C,
            ModuleStop::CRC => Reg::C,
            ModuleStop::CTSU => Reg::C,
            ModuleStop::SLCDC => Reg::C,
            ModuleStop::SSIE0 => Reg::C,
            ModuleStop::DOC => Reg::C,
            ModuleStop::ELC => Reg::C,
            ModuleStop::AGT1 => Reg::D,
            ModuleStop::AGT0 => Reg::D,
            ModuleStop::GPT32 => Reg::D,
            ModuleStop::GPT16 => Reg::D,
            ModuleStop::POEG => Reg::D,
            ModuleStop::ADC140 => Reg::D,
            ModuleStop::DAC8 => Reg::D,
            ModuleStop::DAC12 => Reg::D,
            ModuleStop::ACMPLP => Reg::D,
            ModuleStop::OPAMP => Reg::D,
        }
    }

    /// The bit position of this module within its register.
    pub open spec fn spec_bit(self) -> u8 {
        match self {
            ModuleStop::CAN0 => 2,
            ModuleStop::IIC1 => 8,
            ModuleStop::IIC0 => 9,
            ModuleStop::USBFS => 11,
            ModuleStop::SPI1 => 18,
            ModuleStop::SPI0 => 19,
            ModuleStop::SCI9 => 22,
            ModuleStop::SCI2 => 29,
            ModuleStop::SCI1 => 30,
            ModuleStop::SCI0 => 31,
            ModuleStop::CAC => 0,
            ModuleStop::CRC => 1,
            ModuleStop::CTSU => 3,
            ModuleStop::SLCDC => 4,
            ModuleStop::SSIE0 => 8,
            ModuleStop::DOC => 13,
            ModuleStop::ELC => 14,
            ModuleStop::AGT1 => 2,
            ModuleStop::AGT0 => 3,
            ModuleStop::GPT32 => 5,
            ModuleStop::GPT16 => 6,
            ModuleStop::POEG => 14,
            ModuleStop::ADC140 => 16,
            ModuleStop::DAC8 => 19,
            ModuleStop::DAC12 => 20,
            ModuleStop::ACMPLP => 29,
            ModuleStop::OPAMP => 31,
        }
    }

    /// The register that holds this module's bit.
    pub fn reg(&self) -> (r: Reg)
        ensures
            r == self.spec_reg(),
    {
        match self {
            ModuleStop::CAN0 => Reg::B,
            ModuleStop::IIC1 => Reg::B,
            ModuleStop::IIC0 => Reg::B,
            ModuleStop::USBFS => Reg::B,
            ModuleStop::SPI1 => Reg::B,
            ModuleStop::SPI0 => Reg::B,
            ModuleStop::SCI9 => Reg::B,
            ModuleStop::SCI2 => Reg::B,
            ModuleStop::SCI1 => Reg::B,
            ModuleStop::SCI0 => Reg::B,
            ModuleStop::CAC => Reg::C,
            ModuleStop::CRC => Reg::C,
            ModuleStop::CTSU => Reg::C,
            ModuleStop::SLCDC => Reg::C,
            ModuleStop::SSIE0 => Reg::C,
            ModuleStop::DOC => Reg::C,
            ModuleStop::ELC => Reg::C,
            ModuleStop::AGT1 => Reg::D,
            ModuleStop::AGT0 => Reg::D,
            ModuleStop::GPT32 => Reg::D,
            ModuleStop::GPT16 => Reg::D,
            ModuleStop::POEG => Reg::D,
            ModuleStop::ADC140 => Reg::D,
            ModuleStop::DAC8 => Reg::D,
            ModuleStop::DAC12 => Reg::D,
            ModuleStop::ACMPLP => Reg::D,
            ModuleStop::OPAMP => Reg::D,
        }
    }

    /// The bit position of this module within its register.
    pub fn bit(&self) -> (r: u8)
        ensures
            r == self.spec_bit(),
            r < 32,
    {
        match self {
            ModuleStop::CAN0 => 2,
            ModuleStop::IIC1 => 8,
            ModuleStop::IIC0 => 9,
            ModuleStop::USBFS => 11,
            ModuleStop::SPI1 => 18,
            ModuleStop::SPI0 => 19,
            ModuleStop::SCI9 => 22,
            ModuleStop::SCI2 => 29,
            ModuleStop::SCI1 => 30,
            ModuleStop::SCI0 => 31,
            ModuleStop::CAC => 0,
            ModuleStop::CRC => 1,
            ModuleStop::CTSU => 3,
            ModuleStop::SLCDC => 4,
            ModuleStop::SSIE0 => 8,
            ModuleStop::DOC => 13,
            ModuleStop::ELC => 14,
            ModuleStop::AGT1 => 2,
            ModuleStop::AGT0 => 3,
            ModuleStop::GPT32 => 5,
            ModuleStop::GPT16 => 6,
            ModuleStop::POEG => 14,
            ModuleStop::ADC140 => 16,
            ModuleStop::DAC8 => 19,
            ModuleStop::DAC12 => 20,
            ModuleStop::ACMPLP => 29,
            ModuleStop::OPAMP => 31,
        }
    }

    /// The one-hot mask of this module's bit.
    pub fn mask(&self) -> (m: u32)
        ensures
            m == 1u32 << self.spec_bit(),
    {
        let b = self.bit();
        1u32 << b
    }
}

/// The register word with bit `b` set (`stop`) or cleared (`!stop`).
pub open spec fn with_bit(bits: u32, b: u8, stop: bool) -> u32 {
    if stop { bits | (1u32 << b) } else { bits & !(1u32 << b) }
}

/// Is bit `b` of `bits` set?
pub open spec fn bit_is_set(bits: u32, b: u32) -> bool {
    bits & (1u32 << b) != 0
}

fn write_bit(module: ModuleStop, stop: bool, bits: u32) -> (r: u32)
    ensures
        r == with_bit(bits, module.spec_bit(), stop),
{
    let mask = module.mask();
    if stop { bits | mask } else { bits & !mask }
}

/// Ungate the module's clock: `bits` with the module's stop bit cleared.
///
/// `bits` is the current value of the register named by [`ModuleStop::reg`]; the
/// result is what to write back. Every other bit is kept.
pub fn start(module: ModuleStop, bits: u32) -> (r: u32)
    ensures
        r == with_bit(bits, module.spec_bit(), false),
        !bit_is_set(r, module.spec_bit() as u32),
        forall|i: u32| i < 32 && i != module.spec_bit() ==> bit_is_set(r, i) == bit_is_set(bits, i),
{
    let r = write_bit(module, false, bits);
    let b = module.bit();
    assert(!bit_is_set(r, b as u32) && forall|i: u32| i < 32 && i != b ==> #[trigger] bit_is_set(r, i) == bit_is_set(bits, i)) by (bit_vector)
        requires
            r == bits & !(1u32 << b),
            b < 32;
    r
}

/// Gate the module's clock again: `bits` with the module's stop bit set.
///
/// `bits` is the current value of the register named by [`ModuleStop::reg`]; the
/// result is what to write back. Every other bit is kept.
pub fn stop(module: ModuleStop, bits: u32) -> (r: u32)
    ensures
        r == with_bit(bits, module.spec_bit(), true),
        bit_is_set(r, module.spec_bit() as u32),
        forall|i: u32| i < 32 && i != module.spec_bit() ==> bit_is_set(r, i) == bit_is_set(bits, i),
{
    let r = write_bit(module, true, bits);
    let b = module.bit();
    assert(bit_is_set(r, b as u32) && forall|i: u32| i < 32 && i != b ==> #[trigger] bit_is_set(r, i) == bit_is_set(bits, i)) by (bit_vector)
        requires
            r == bits | (1u32 << b),
            b < 32;
    r
}

/// The module whose register block starts at `base`, for the peripherals the
/// drivers own: the SCI, IIC, SPI, GPT and AGT channels and ADC140. The 32-bit GPT
/// channels share one bit, as do the 16-bit ones.
pub open spec fn module_at(base: int) -> Option<ModuleStop> {
    if base == 0x4007_0000 {
        Some(ModuleStop::SCI0)
    } else if base == 0x4007_0020 {
        Some(ModuleStop::SCI1)
    } else if base == 0x4007_0040 {
        Some(ModuleStop::SCI2)
    } else if base == 0x4007_0120 {
        Some(ModuleStop::SCI9)
    } else if base == 0x4005_3000 {
        Some(ModuleStop::IIC0)
    } else if base == 0x4005_3100 {
        Some(ModuleStop::IIC1)
    } else if base == 0x4007_2000 {
        Some(ModuleStop::SPI0)
    } else if base == 0x4007_2100 {
        Some(ModuleStop::SPI1)
    } else if base == 0x4007_8000 || base == 0x4007_8100 {
        Some(ModuleStop::GPT32)
    } else if 0x4007_8200 <= base <= 0x4007_8700 && base % 0x100 == 0 {
        Some(ModuleStop::GPT16)
    } else if base == 0x4008_4000 {
        Some(ModuleStop::AGT0)
    } else if base == 0x4008_4100 {
        Some(ModuleStop::AGT1)
    } else if base == 0x4005_C000 {
        Some(ModuleStop::ADC140)
    } else {
        None
    }
}

impl ModuleStop {
    /// The module whose register block starts at `base`, or `None` for an address
    /// that is not the base of a driven peripheral.
    pub fn for_base(base: usize) -> (r: Option<ModuleStop>)
        ensures
            r == module_at(base as int),
    {
        if base == 0x4007_0000 {
            Some(ModuleStop::SCI0)
        } else if base == 0x4007_0020 {
            Some(ModuleStop::SCI1)
        } else if base == 0x4007_0040 {
            Some(ModuleStop::SCI2)
        } else if base == 0x4007_0120 {
            Some(ModuleStop::SCI9)
        } else if base == 0x4005_3000 {
            Some(ModuleStop::IIC0)
        } else if base == 0x4005_3100 {
            Some(ModuleStop::IIC1)
        } else if base == 0x4007_2000 {
            Some(ModuleStop::SPI0)
        } else if base == 0x4007_2100 {
            Some(ModuleStop::SPI1)
        } else if base == 0x4007_8000 || base == 0x4007_8100 {
            Some(ModuleStop::GPT32)
        } else if 0x4007_8200 <= base && base <= 0x4007_8700 && base % 0x100 == 0 {
            Some(ModuleStop::GPT16)
        } else if base == 0x4008_4000 {
            Some(ModuleStop::AGT0)
        } else if base == 0x4008_4100 {
            Some(ModuleStop::AGT1)
        } else if base == 0x4005_C000 {
            Some(ModuleStop::ADC140)
        } else {
            None
        }
    }
}

/// No two modules share a module-stop bit: each names its own bit, below 32, of
/// its register, so starting or stopping one never gates another.
pub proof fn lemma_module_bits_distinct(a: ModuleStop, b: ModuleStop)
    ensures
        a.spec_bit() < 32,
        a.spec_reg() == b.spec_reg() && a.spec_bit() == b.spec_bit() ==> a == b,
{
}

/// Stopping a module and starting it again gives back the register word it had,
/// provided the module was running (its bit clear) to begin with.
pub proof fn lemma_stop_then_start(module: ModuleStop, bits: u32)
    requires
        !bit_is_set(bits, module.spec_bit() as u32),
    ensures
        with_bit(with_bit(bits, module.spec_bit(), true), module.spec_bit(), false) == bits,
{
    let b = module.spec_bit();
    assert(b < 32);
    assert((bits | (1u32 << b)) & !(1u32 << b) == bits) by (bit_vector)
        requires
            b < 32,
            bits & (1u32 << b) == 0;
}

} // verus!
