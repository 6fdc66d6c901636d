use uno_r4_hal::mstp::{start, stop, ModuleStop, Reg};

#[test]
fn start_and_stop_touch_only_the_module_bit() {
    assert_eq!(ModuleStop::SCI0.reg(), Reg::B);
    assert_eq!(ModuleStop::SCI0.bit(), 31);
    assert_eq!(start(ModuleStop::SCI0, 0xffff_ffff), 0x7fff_ffff);
    assert_eq!(stop(ModuleStop::SCI0, 0), 0x8000_0000);
    assert_eq!(ModuleStop::ADC140.reg(), Reg::D);
    assert_eq!(start(ModuleStop::ADC140, 0xffff_ffff), 0xfffe_ffff);
    assert_eq!(ModuleStop::CAC.reg(), Reg::C);
    assert_eq!(stop(ModuleStop::CAC, 0x10), 0x11);
    // Stopping then starting a running module gives the word back.
    let w = 0x1234_0000;
    assert_eq!(start(ModuleStop::AGT0, stop(ModuleStop::AGT0, w)), w);
    assert_eq!(ModuleStop::IIC1.mask(), 1 << 8);
}

#[test]
fn modules_are_found_by_register_base() {
    assert_eq!(ModuleStop::for_base(0x4007_0000), Some(ModuleStop::SCI0));
    assert_eq!(ModuleStop::for_base(0x4007_0020), Some(ModuleStop::SCI1));
    assert_eq!(ModuleStop::for_base(0x4007_0120), Some(ModuleStop::SCI9));
    assert_eq!(ModuleStop::for_base(0x4005_3100), Some(ModuleStop::IIC1));
    assert_eq!(ModuleStop::for_base(0x4007_2000), Some(ModuleStop::SPI0));
    assert_eq!(ModuleStop::for_base(0x4007_8100), Some(ModuleStop::GPT32));
    assert_eq!(ModuleStop::for_base(0x4007_8500), Some(ModuleStop::GPT16));
    assert_eq!(ModuleStop::for_base(0x4008_4100), Some(ModuleStop::AGT1));
    assert_eq!(ModuleStop::for_base(0x4005_C000), Some(ModuleStop::ADC140));
    assert_eq!(ModuleStop::for_base(0x4007_8250), None);
    assert_eq!(ModuleStop::for_base(0), None);
}
