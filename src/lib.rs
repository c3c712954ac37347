//! Clock-tree configuration and peripheral decision logic for PY32F0xx microcontrollers.
//!
//! The library decides; the caller owns the register blocks and performs the reads and
//! writes it is asked for.
//!
//! - [`rcc`]: clock sources, the clock request, and its resolution into a register
//!   program and the frozen frequencies; [`rcc_lemmas`] states what every resolution
//!   satisfies.
//! - [`apply`]: running a clock program, with an optional bound on ready-flag polling.
//! - [`gate`]: peripheral clock-enable and reset bits.
//! - [`adc`]: converter settings, internal sensors, and conversion arithmetic.
//! - [`serial`], [`i2c`], [`i2c_transfer`], [`gpio`], [`timers`]: the decisions and
//!   register words of the other peripherals.
#![allow(non_camel_case_types)]

pub mod rcc;
pub mod rcc_lemmas;
pub mod apply;
pub mod gate;
pub mod adc;
pub mod serial;
pub mod gpio;
pub mod i2c;
pub mod i2c_transfer;
pub mod timers;
