use uno_r4_hal::adc::{
    adcsr_busy, adcsr_start, result_address, select, Adc, Channel, Config, Resolution, ADCSR_ADHSC, ADCSR_ADST, ADDR_BASE,
};

#[test]
fn channel_numbers() {
    assert_eq!(Channel::new(0), Some(Channel::AN000));
    assert_eq!(Channel::new(9), Some(Channel::AN009));
    assert_eq!(Channel::new(10), None);
    assert_eq!(Channel::new(15), None);
    assert_eq!(Channel::new(16), Some(Channel::AN016));
    assert_eq!(Channel::new(25), Some(Channel::AN025));
    assert_eq!(Channel::new(26), None);
    for n in 0..=255u8 {
        if let Some(c) = Channel::new(n) {
            assert_eq!(c.number(), n);
        }
    }
}

#[test]
fn selection_sets_exactly_one_bit() {
    assert_eq!(select(Channel::AN000), Ok((1, 0)));
    assert_eq!(select(Channel::AN009), Ok((1 << 9, 0)));
    assert_eq!(select(Channel::AN016), Ok((0, 1)));
    assert_eq!(select(Channel::AN025), Ok((0, 1 << 9)));
    assert_eq!(result_address(Channel::AN000), ADDR_BASE);
    assert_eq!(result_address(Channel::AN021), ADDR_BASE + 42);
}

#[test]
fn resolutions_and_config() {
    assert_eq!(Resolution::Bits14.max_value(), 16383);
    assert_eq!(Resolution::Bits12.max_value(), 4095);
    assert_eq!(Resolution::Bits10.max_value(), 1023);
    assert_eq!(Resolution::Bits8.max_value(), 255);
    assert_eq!(Resolution::Bits8.adprc(), 3);
    assert_eq!(Resolution::default(), Resolution::Bits14);
    let c = Config::default();
    assert_eq!((c.resolution, c.sample_cycles, c.high_speed), (Resolution::Bits14, 13, true));
    assert_eq!(Config { sample_cycles: 2, ..c }.sampling_states(), 5);
    assert_eq!(c.sampling_states(), 13);
    assert!(!c.adhsc());
    let adc = Adc::new(Config { resolution: Resolution::Bits10, ..c });
    assert_eq!(adc.max_value(), 1023);
}

#[test]
fn control_register_words() {
    let mut c = Config::default();
    assert_eq!(c.adcer(), 0);
    assert_eq!(c.adcsr(), 0);
    c.resolution = Resolution::Bits8;
    assert_eq!(c.adcer(), 0b110);
    c.resolution = Resolution::Bits12;
    assert_eq!(c.adcer(), 0b010);
    c.high_speed = false;
    assert_eq!(c.adcsr(), ADCSR_ADHSC);
    assert_eq!(adcsr_start(ADCSR_ADHSC), ADCSR_ADHSC | ADCSR_ADST);
    assert!(adcsr_busy(ADCSR_ADST));
    assert!(!adcsr_busy(ADCSR_ADHSC));
}
