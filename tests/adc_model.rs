use py32f0xx_hal::adc::{
    channel_mask, Adc, AdcAlign, AdcCfgBits, AdcClockMode, AdcPrecision, AdcSampleTime,
    StoredConfig, VRef, VTemp,
};

#[test]
fn defaults() {
    assert_eq!(AdcClockMode::default(), AdcClockMode::Pclk);
    assert_eq!(AdcSampleTime::default(), AdcSampleTime::T_239);
    assert_eq!(AdcAlign::default(), AdcAlign::Right);
    assert_eq!(AdcPrecision::default(), AdcPrecision::B_12);
    let mut adc = Adc::new(AdcClockMode::HsiDiv4);
    assert_eq!(adc.clock_mode(), AdcClockMode::HsiDiv4);
    assert_eq!(adc.save_cfg(), StoredConfig(AdcSampleTime::T_239, AdcAlign::Right, AdcPrecision::B_12));
    assert!(!VTemp::new().is_enabled(&adc));
    assert!(!VRef::new().is_enabled(&adc));
}

#[test]
fn field_codes() {
    assert_eq!(AdcClockMode::Hsi.bits(), 8);
    assert_eq!(AdcClockMode::HsiDiv64.bits(), 14);
    assert_eq!(AdcClockMode::PclkDiv64.bits(), 6);
    assert_eq!(AdcSampleTime::T_41.bits(), 5);
    assert_eq!(AdcAlign::LeftAsRM.bits(), 1);
    assert_eq!(AdcAlign::Right.bits(), 0);
    assert_eq!(AdcPrecision::B_6.bits(), 3);
    let mut adc = Adc::new(AdcClockMode::Pclk);
    adc.set_sample_time(AdcSampleTime::T_13);
    adc.set_precision(AdcPrecision::B_8);
    adc.set_align(AdcAlign::Left);
    assert_eq!(adc.apply_cfg(), AdcCfgBits { smp: 3, res: 2, align: 1 });
    assert_eq!(channel_mask(12), 1 << 12);
}

#[test]
fn save_default_restore() {
    let mut adc = Adc::new(AdcClockMode::Pclk);
    adc.set_sample_time(AdcSampleTime::T_3);
    adc.set_align(AdcAlign::LeftAsRM);
    adc.set_precision(AdcPrecision::B_6);
    let saved = adc.default_cfg();
    assert_eq!(saved, StoredConfig(AdcSampleTime::T_3, AdcAlign::LeftAsRM, AdcPrecision::B_6));
    assert_eq!(adc.max_sample(), 4095);
    adc.restore_cfg(saved);
    assert_eq!(adc.save_cfg(), saved);
    assert_eq!(adc.max_sample(), 255);
}

#[test]
fn max_sample_table() {
    let mut adc = Adc::new(AdcClockMode::Pclk);
    let cases = [
        (AdcAlign::Left, AdcPrecision::B_6, 65535u16),
        (AdcAlign::Left, AdcPrecision::B_12, 65535),
        (AdcAlign::LeftAsRM, AdcPrecision::B_6, 255),
        (AdcAlign::LeftAsRM, AdcPrecision::B_10, 65535),
        (AdcAlign::Right, AdcPrecision::B_12, 4095),
        (AdcAlign::Right, AdcPrecision::B_10, 1023),
        (AdcAlign::Right, AdcPrecision::B_8, 255),
        (AdcAlign::Right, AdcPrecision::B_6, 63),
    ];
    for (align, precision, max) in cases {
        adc.set_align(align);
        adc.set_precision(precision);
        assert_eq!(adc.max_sample(), max);
    }
}

#[test]
fn convert_shifts_left_six_bit() {
    let mut adc = Adc::new(AdcClockMode::Pclk);
    assert_eq!(adc.convert(0x0001_0abc), 0x0abc);
    adc.set_align(AdcAlign::Left);
    adc.set_precision(AdcPrecision::B_6);
    assert_eq!(adc.convert(0x00fc), 0xfc00);
    adc.set_align(AdcAlign::LeftAsRM);
    assert_eq!(adc.convert(0x00fc), 0x00fc);
}

#[test]
fn absolute_millivolts() {
    let adc = Adc::new(AdcClockMode::Pclk);
    assert_eq!(adc.read_abs_mv(3300, 4095), 3300);
    assert_eq!(adc.read_abs_mv(3300, 2048), 1650);
    assert_eq!(adc.read_abs_mv(3300, 0), 0);
}

#[test]
fn temperature_conversion() {
    assert_eq!(VTemp::convert_temp(1000, 1000, 1100), 3000);
    assert_eq!(VTemp::convert_temp(1100, 1000, 1100), 8500);
    assert_eq!(VTemp::convert_temp(1050, 1000, 1100), 5750);
    // below the low calibration point the quotient rounds toward zero
    assert_eq!(VTemp::convert_temp(999, 1000, 1100), 2945);
    assert_eq!(VTemp::convert_temp(990, 1000, 1100), 2450);
    assert_eq!(VTemp::convert_temp(999, 1000, 1300), 2982);
}

#[test]
fn temperature_read_restores_state() {
    let mut adc = Adc::new(AdcClockMode::Pclk);
    adc.set_precision(AdcPrecision::B_8);
    let pending = VTemp::start_read(&mut adc);
    assert!(VTemp::new().is_enabled(&adc));
    assert_eq!(adc.max_sample(), 4095);
    let t = VTemp::read(&mut adc, pending, 1100, 1000, 1100);
    assert_eq!(t, 8500);
    assert!(!VTemp::new().is_enabled(&adc));
    assert_eq!(adc.max_sample(), 255);

    let mut sensor = VTemp::new();
    sensor.enable(&mut adc);
    let pending = VTemp::start_read(&mut adc);
    VTemp::read(&mut adc, pending, 1000, 1000, 1100);
    assert!(sensor.is_enabled(&adc));
    sensor.disable(&mut adc);
    assert!(!sensor.is_enabled(&adc));
}

#[test]
fn vdda_read() {
    let mut adc = Adc::new(AdcClockMode::Pclk);
    let pending = VRef::start_read(&mut adc);
    assert!(VRef::new().is_enabled(&adc));
    assert_eq!(VRef::read_vdda(&mut adc, pending, 1489), 3300);
    assert!(!VRef::new().is_enabled(&adc));
    let mut vref = VRef::new();
    vref.enable(&mut adc);
    let pending = VRef::start_read(&mut adc);
    assert_eq!(VRef::read_vdda(&mut adc, pending, 1200), 4095);
    assert!(vref.is_enabled(&adc));
    assert_eq!(VTemp::channel(), 11);
    assert_eq!(VRef::channel(), 12);
}
