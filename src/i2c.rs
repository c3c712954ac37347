//! I2C master: bus timing, the meaning of the status flags, and the pins that can carry
//! the bus.
use vstd::prelude::*;

use crate::gpio::Port;
use crate::rcc::Variant;

verus! {

/// I2C bus errors.
#[derive(Clone, Copy, Debug, PartialEq, Eq, Structural)]
#[allow(clippy::upper_case_acronyms)]
pub enum Error {
    OVERRUN,
    NACK,
    BUS,
    PEC,
}

/// Status register 1 flags.
pub const SR1_SB: u32 = 1 << 0;
pub const SR1_BTF: u32 = 1 << 2;
pub const SR1_RXNE: u32 = 1 << 6;
pub const SR1_TXE: u32 = 1 << 7;
pub const SR1_BERR: u32 = 1 << 8;
pub const SR1_ARLO: u32 = 1 << 9;
pub const SR1_AF: u32 = 1 << 10;
pub const SR1_OVR: u32 = 1 << 11;
pub const SR1_PECERR: u32 = 1 << 12;

/// The error a status word reports, checked in the order PEC, overrun, bus (arbitration
/// lost or bus error), acknowledge failure.
pub open spec fn sr1_error(sr1: u32) -> Option<Error> {
    if sr1 & SR1_PECERR != 0 {
        Some(Error::PEC)
    } else if sr1 & SR1_OVR != 0 {
        Some(Error::OVERRUN)
    } else if sr1 & (SR1_ARLO | SR1_BERR) != 0 {
        Some(Error::BUS)
    } else if sr1 & SR1_AF != 0 {
        Some(Error::NACK)
    } else {
        None
    }
}

impl Error {
    /// The status flags an error stands for, which are cleared once it is reported.
    pub open spec fn spec_flags(self) -> u32 {
        match self {
            Error::PEC => SR1_PECERR,
            Error::OVERRUN => SR1_OVR,
            Error::BUS => SR1_ARLO | SR1_BERR,
            Error::NACK => SR1_AF,
        }
    }

    pub fn flags(&self) -> (r: u32)
        ensures
            r == self.spec_flags(),
    {
        match self {
            Error::PEC => SR1_PECERR,
            Error::OVERRUN => SR1_OVR,
            Error::BUS => SR1_ARLO | SR1_BERR,
            Error::NACK => SR1_AF,
        }
    }
}

/// Checks a status word for errors; the caller clears the flags of the error returned.
pub fn check_and_clear_error_flags(sr1: u32) -> (r: Result<(), Error>)
    ensures
        r == match sr1_error(sr1) {
            Some(e) => Err(e),
            None => Ok(()),
        },
{
    if sr1 & SR1_PECERR != 0 {
        return Err(Error::PEC);
    }
    if sr1 & SR1_OVR != 0 {
        return Err(Error::OVERRUN);
    }
    if sr1 & (SR1_ARLO | SR1_BERR) != 0 {
        return Err(Error::BUS);
    }
    if sr1 & SR1_AF != 0 {
        return Err(Error::NACK);
    }
    Ok(())
}

/// `x` held to `lo..=hi`.
pub open spec fn clamp(x: int, lo: int, hi: int) -> int {
    if x < lo {
        lo
    } else if x > hi {
        hi
    } else {
        x
    }
}

/// Timing settings of the bus.
#[derive(Clone, Copy, Debug, PartialEq, Eq, Structural)]
pub struct I2cTiming {
    /// Peripheral clock in MHz, as the frequency field takes it.
    pub freq: u8,
    /// Fast mode (above 100 kHz).
    pub fast: bool,
    /// Clock control field.
    pub ccr: u16,
}

/// The bus timing for a peripheral clock of `pclk` Hz and a bus speed of `speed_khz`
/// kHz, with the fast-mode duty cycle bit `duty`: the clock in whole MHz held to
/// `4..=48`; standard mode up to 100 kHz with `pclk / (2 * speed_khz)`, fast mode above
/// with `pclk / (25 * speed_khz)` (duty set) or `pclk / (3 * speed_khz)`; the clock
/// control value held to `4..=4095`.
pub open spec fn i2c_timing(pclk: u32, speed_khz: u32, duty: bool) -> I2cTiming {
    let fast = speed_khz > 100;
    let factor: int = if !fast {
        2
    } else if duty {
        25
    } else {
        3
    };
    I2cTiming {
        freq: clamp(pclk as int / 1_000_000, 4, 48) as u8,
        fast,
        ccr: clamp(pclk as int / (factor * speed_khz), 4, 4095) as u16,
    }
}

/// Computes the bus timing; `duty` is the fast-mode duty bit as the hardware holds it.
pub fn i2c_init(pclk: u32, speed_khz: u32, duty: bool) -> (r: I2cTiming)
    requires
        speed_khz > 0,
    ensures
        r == i2c_timing(pclk, speed_khz, duty),
{
    let f = pclk / 1_000_000;
    let freq: u8 = if f < 4 {
        4
    } else if f > 48 {
        48
    } else {
        f as u8
    };
    let fast = speed_khz > 100;
    let factor: u64 = if !fast {
        2
    } else if duty {
        25
    } else {
        3
    };
    let div = factor * speed_khz as u64;
    let c = pclk as u64 / div;
    let ccr: u16 = if c < 4 {
        4
    } else if c > 4095 {
        4095
    } else {
        c as u16
    };
    I2cTiming { freq, fast, ccr }
}

/// Which bus line a pin carries.
#[derive(Clone, Copy, Debug, PartialEq, Eq, Structural)]
pub enum I2cLine {
    Scl,
    Sda,
}

/// A pin and alternate function that cannot carry the bus on the variant.
#[derive(Clone, Copy, Debug, PartialEq, Eq, Structural)]
pub struct InvalidPin {
    pub port: Port,
    pub pin: u8,
    pub af: u8,
}

/// The bus line that pin `pin` of `port` carries in alternate function `af` on `variant`.
pub open spec fn i2c_pin_line(variant: Variant, port: Port, pin: u8, af: u8) -> Option<I2cLine> {
    if variant is Py32f002b {
        match (port, pin, af) {
            (Port::A, 2, 6) => Some(I2cLine::Scl),
            (Port::B, 3, 6) => Some(I2cLine::Scl),
            (Port::B, 4, 6) => Some(I2cLine::Sda),
            (Port::B, 6, 6) => Some(I2cLine::Sda),
            _ => None,
        }
    } else {
        match (port, pin, af) {
            (Port::A, 3, 12) => Some(I2cLine::Scl),
            (Port::A, 8, 12) => Some(I2cLine::Scl),
            (Port::A, 9, 6) => Some(I2cLine::Scl),
            (Port::A, 10, 12) => Some(I2cLine::Scl),
            (Port::A, 11, 6) => Some(I2cLine::Scl),
            (Port::B, 6, 6) => Some(I2cLine::Scl),
            (Port::B, 8, 6) => Some(I2cLine::Scl),
            (Port::F, 1, 12) => Some(I2cLine::Scl),
            (Port::A, 2, 12) => Some(I2cLine::Sda),
            (Port::A, 7, 12) => Some(I2cLine::Sda),
            (Port::A, 9, 12) => Some(I2cLine::Sda),
            (Port::A, 10, 6) => Some(I2cLine::Sda),
            (Port::A, 12, 6) => Some(I2cLine::Sda),
            (Port::B, 7, 6) => Some(I2cLine::Sda),
            (Port::B, 8, 12) => Some(I2cLine::Sda),
            (Port::F, 0, 12) => Some(I2cLine::Sda),
            _ => None,
        }
    }
}

/// Checks that a pin in an alternate function can carry the bus, and says which line.
pub fn i2c_pin_role(variant: Variant, port: Port, pin: u8, af: u8) -> (r: Result<
    I2cLine,
    InvalidPin,
>)
    ensures
        r == match i2c_pin_line(variant, port, pin, af) {
            Some(line) => Ok(line),
            None => Err(InvalidPin { port, pin, af }),
        },
{
    let line = match variant {
        Variant::Py32f002b => match (port, pin, af) {
            (Port::A, 2, 6) => Some(I2cLine::Scl),
            (Port::B, 3, 6) => Some(I2cLine::Scl),
            (Port::B, 4, 6) => Some(I2cLine::Sda),
            (Port::B, 6, 6) => Some(I2cLine::Sda),
            _ => None,
        },
        _ => match (port, pin, af) {
            (Port::A, 3, 12) => Some(I2cLine::Scl),
            (Port::A, 8, 12) => Some(I2cLine::Scl),
            (Port::A, 9, 6) => Some(I2cLine::Scl),
            (Port::A, 10, 12) => Some(I2cLine::Scl),
            (Port::A, 11, 6) => Some(I2cLine::Scl),
            (Port::B, 6, 6) => Some(I2cLine::Scl),
            (Port::B, 8, 6) => Some(I2cLine::Scl),
            (Port::F, 1, 12) => Some(I2cLine::Scl),
            (Port::A, 2, 12) => Some(I2cLine::Sda),
            (Port::A, 7, 12) => Some(I2cLine::Sda),
            (Port::A, 9, 12) => Some(I2cLine::Sda),
            (Port::A, 10, 6) => Some(I2cLine::Sda),
            (Port::A, 12, 6) => Some(I2cLine::Sda),
            (Port::B, 7, 6) => Some(I2cLine::Sda),
            (Port::B, 8, 12) => Some(I2cLine::Sda),
            (Port::F, 0, 12) => Some(I2cLine::Sda),
            _ => None,
        },
    };
    match line {
        Some(l) => Ok(l),
        None => Err(InvalidPin { port, pin, af }),
    }
}

/// Pins that can carry the clock line of bus `I2C`
pub trait SclPin<I2C> {}

/// Pins that can carry the data line of bus `I2C`
pub trait SdaPin<I2C> {}

/// I2C abstraction: the bus peripheral and its two pins.
pub struct I2c<I2C, SCLPIN, SDAPIN> {
    i2c: I2C,
    pins: (SCLPIN, SDAPIN),
}

impl<I2C, SCLPIN, SDAPIN> I2c<I2C, SCLPIN, SDAPIN> {
    /// Puts the bus peripheral together with its pins.
    pub fn new(i2c: I2C, pins: (SCLPIN, SDAPIN)) -> (r: Self)
        ensures
            r.parts() == (i2c, pins),
    {
        I2c { i2c, pins }
    }

    /// The bus peripheral and pins held.
    pub closed spec fn parts(&self) -> (I2C, (SCLPIN, SDAPIN)) {
        (self.i2c, self.pins)
    }

    /// The bus peripheral.
    pub fn regs(&self) -> (r: &I2C)
        ensures
            *r == self.parts().0,
    {
        &self.i2c
    }

    /// Gives the bus peripheral and the pins back.
    pub fn release(self) -> (r: (I2C, (SCLPIN, SDAPIN)))
        ensures
            r == self.parts(),
    {
        (self.i2c, self.pins)
    }
}

} // verus!
