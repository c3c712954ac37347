use py32f0xx_hal::gate::{enable_word, gate, release_word, Bus, Gate, Peripheral};
use py32f0xx_hal::gpio::{four_bit_field, two_bit_field, Output, Pin, Port, PushPull};
use py32f0xx_hal::i2c::{
    check_and_clear_error_flags, i2c_init, i2c_pin_role, Error as I2cError, I2c, I2cLine,
    I2cTiming, InvalidPin,
};
use py32f0xx_hal::rcc::Variant;
use py32f0xx_hal::serial::{self, baud_divisor, listen, unlisten, Error as SerialError, Event};
use py32f0xx_hal::timers::{systick_reload, systick_reload_fits};

#[test]
fn serial_read_decisions() {
    assert_eq!(serial::read(0x20, 0x1_41), Ok(Some(0x41)));
    assert_eq!(serial::read(0x00, 0x41), Ok(None));
    assert_eq!(serial::read(0x2f, 0x41), Err(SerialError::Parity));
    assert_eq!(serial::read(0x2e, 0x41), Err(SerialError::Framing));
    assert_eq!(serial::read(0x2c, 0x41), Err(SerialError::Noise));
    assert_eq!(serial::read(0x28, 0x41), Err(SerialError::Overrun));
}

#[test]
fn serial_write_and_flush() {
    assert_eq!(serial::write(0x80, b'x'), Some(b'x' as u16));
    assert_eq!(serial::write(0x40, b'x'), None);
    assert!(serial::flush(0x40));
    assert!(!serial::flush(0x80));
    assert!(serial::is_idle(0x10));
    assert_eq!(baud_divisor(24_000_000, 115_200), 208);
    assert_eq!(baud_divisor(8_000_000, 9_600), 833);
}

#[test]
fn serial_interrupt_bits() {
    assert_eq!(listen(0x0d, Event::Rxne), 0x2d);
    assert_eq!(listen(0x0d, Event::Txe), 0x8d);
    assert_eq!(listen(0x0d, Event::Idle), 0x1d);
    assert_eq!(unlisten(0xff, Event::Rxne), 0xdf);
    assert_eq!(unlisten(listen(0x0d, Event::Idle), Event::Idle), 0x0d);
}

#[test]
fn i2c_error_priority() {
    assert_eq!(check_and_clear_error_flags(0), Ok(()));
    assert_eq!(check_and_clear_error_flags(0x80), Ok(()));
    assert_eq!(check_and_clear_error_flags(0x1f00), Err(I2cError::PEC));
    assert_eq!(check_and_clear_error_flags(0x0f00), Err(I2cError::OVERRUN));
    assert_eq!(check_and_clear_error_flags(0x0700), Err(I2cError::BUS));
    assert_eq!(check_and_clear_error_flags(0x0100), Err(I2cError::BUS));
    assert_eq!(check_and_clear_error_flags(0x0400), Err(I2cError::NACK));
    assert_eq!(I2cError::BUS.flags(), 0x0300);
    assert_eq!(I2cError::NACK.flags(), 0x0400);
}

#[test]
fn i2c_timing_values() {
    assert_eq!(i2c_init(8_000_000, 100, false), I2cTiming { freq: 8, fast: false, ccr: 4095 });
    assert_eq!(i2c_init(1_000_000, 100, false), I2cTiming { freq: 4, fast: false, ccr: 4095 });
    assert_eq!(i2c_init(96_000_000, 400_000, false), I2cTiming { freq: 48, fast: true, ccr: 80 });
    assert_eq!(i2c_init(96_000_000, 400_000, true), I2cTiming { freq: 48, fast: true, ccr: 9 });
    assert_eq!(i2c_init(1_000, 400, true), I2cTiming { freq: 4, fast: true, ccr: 4 });
}

#[test]
fn i2c_pin_table() {
    assert_eq!(i2c_pin_role(Variant::Py32f030, Port::A, 3, 12), Ok(I2cLine::Scl));
    assert_eq!(i2c_pin_role(Variant::Py32f030, Port::F, 0, 12), Ok(I2cLine::Sda));
    assert_eq!(i2c_pin_role(Variant::Py32f003, Port::B, 8, 6), Ok(I2cLine::Scl));
    assert_eq!(i2c_pin_role(Variant::Py32f003, Port::B, 8, 12), Ok(I2cLine::Sda));
    assert_eq!(
        i2c_pin_role(Variant::Py32f030, Port::A, 3, 6),
        Err(InvalidPin { port: Port::A, pin: 3, af: 6 })
    );
    assert_eq!(i2c_pin_role(Variant::Py32f002b, Port::B, 3, 6), Ok(I2cLine::Scl));
    assert!(i2c_pin_role(Variant::Py32f002b, Port::A, 3, 12).is_err());
}

#[test]
fn i2c_release_gives_parts_back() {
    let bus = I2c::new(7u8, ("scl", "sda"));
    assert_eq!(*bus.regs(), 7);
    assert_eq!(bus.release(), (7, ("scl", "sda")));
}

#[test]
fn gpio_words() {
    let pin: Pin<Output<PushPull>> = Pin::new(Port::A, 5);
    assert_eq!(pin.port(), Port::A);
    assert_eq!(pin.index(), 5);
    assert_eq!(pin.set_high(), 1 << 5);
    assert_eq!(pin.set_low(), 1 << 21);
    assert!(pin.is_low(0xffff_ffdf));
    assert!(pin.is_high(0x20));
    assert!(pin.is_set_high(0x20));
    assert!(pin.is_set_low(0));
    assert_eq!(two_bit_field(0xffff_ffff, 3, 0b10), 0xffff_ffbf);
    assert_eq!(two_bit_field(0, 15, 0b11), 0xc000_0000);
    assert_eq!(four_bit_field(0xffff_ffff, 2, 0x5), 0xffff_f5ff);
    assert_eq!(four_bit_field(0, 7, 0xc), 0xc000_0000);
}

#[test]
fn systick_reload_values() {
    assert_eq!(systick_reload(24_000_000, 1_000), 23_999);
    assert_eq!(systick_reload(8_000_000, 1), 7_999_999);
    assert!(systick_reload_fits(8_000_000, 1));
    assert!(!systick_reload_fits(24_000_000, 1));
    assert!(!systick_reload_fits(24_000_000, 0));
    assert!(!systick_reload_fits(1_000, 2_000));
}

#[test]
fn peripheral_gates() {
    assert_eq!(gate(Peripheral::Adc), Gate { bus: Bus::Apb2, mask: 1 << 20 });
    assert_eq!(gate(Peripheral::I2c), Gate { bus: Bus::Apb1, mask: 1 << 21 });
    assert_eq!(gate(Peripheral::GpioF), Gate { bus: Bus::Io, mask: 1 << 5 });
    assert_eq!(gate(Peripheral::Usart1), Gate { bus: Bus::Apb2, mask: 1 << 14 });
    assert_eq!(enable_word(0x1, Peripheral::Usart2), 0x1 | (1 << 17));
    assert_eq!(enable_word(enable_word(0, Peripheral::Tim1), Peripheral::Tim1), 1 << 11);
    assert_eq!(release_word(0xffff_ffff, Peripheral::GpioB), 0xffff_fffd);
}
