//! Peripheral clock gates: which enable bit, and which reset bit, belongs to a peripheral.
//!
//! Every driver enables its peripheral's bus clock and pulses its reset before touching
//! its registers. On each bus the enable and reset registers share one layout, so one bit
//! serves both.
use vstd::prelude::*;

verus! {

/// Peripheral blocks behind a clock gate.
#[derive(Clone, Copy, Debug, PartialEq, Eq, Structural)]
pub enum Peripheral {
    GpioA,
    GpioB,
    GpioF,
    Tim3,
    Usart2,
    I2c,
    Tim1,
    Spi1,
    Usart1,
    Tim14,
    Adc,
}

/// Enable/reset register pairs, one per bus.
#[derive(Clone, Copy, Debug, PartialEq, Eq, Structural)]
pub enum Bus {
    /// I/O port enable and reset registers.
    Io,
    /// APB enable and reset registers 1.
    Apb1,
    /// APB enable and reset registers 2.
    Apb2,
}

/// The bus of a peripheral and the index of its bit there.
pub open spec fn gate_of(p: Peripheral) -> (Bus, u32) {
    match p {
        Peripheral::GpioA => (Bus::Io, 0),
        Peripheral::GpioB => (Bus::Io, 1),
        Peripheral::GpioF => (Bus::Io, 5),
        Peripheral::Tim3 => (Bus::Apb1, 1),
        Peripheral::Usart2 => (Bus::Apb1, 17),
        Peripheral::I2c => (Bus::Apb1, 21),
        Peripheral::Tim1 => (Bus::Apb2, 11),
        Peripheral::Spi1 => (Bus::Apb2, 12),
        Peripheral::Usart1 => (Bus::Apb2, 14),
        Peripheral::Tim14 => (Bus::Apb2, 15),
        Peripheral::Adc => (Bus::Apb2, 20),
    }
}

/// Where a peripheral's gate is: the register pair and the one-bit mask in both.
#[derive(Clone, Copy, Debug, PartialEq, Eq, Structural)]
pub struct Gate {
    pub bus: Bus,
    pub mask: u32,
}

/// Where the clock gate of peripheral `p` lies.
pub fn gate(p: Peripheral) -> (r: Gate)
    ensures
        r.bus == gate_of(p).0,
        r.mask == 1u32 << gate_of(p).1,
{
    let (bus, bit): (Bus, u32) = match p {
        Peripheral::GpioA => (Bus::Io, 0),
        Peripheral::GpioB => (Bus::Io, 1),
        Peripheral::GpioF => (Bus::Io, 5),
        Peripheral::Tim3 => (Bus::Apb1, 1),
        Peripheral::Usart2 => (Bus::Apb1, 17),
        Peripheral::I2c => (Bus::Apb1, 21),
        Peripheral::Tim1 => (Bus::Apb2, 11),
        Peripheral::Spi1 => (Bus::Apb2, 12),
        Peripheral::Usart1 => (Bus::Apb2, 14),
        Peripheral::Tim14 => (Bus::Apb2, 15),
        Peripheral::Adc => (Bus::Apb2, 20),
    };
    Gate { bus, mask: 1u32 << bit }
}

/// The enable (or reset) register word `reg` with peripheral `p`'s bit set and every other
/// bit kept; setting it again changes nothing.
pub fn enable_word(reg: u32, p: Peripheral) -> (r: u32)
    ensures
        r == reg | (1u32 << gate_of(p).1),
        r | (1u32 << gate_of(p).1) == r,
{
    let m = gate(p).mask;
    let r = reg | m;
    assert(r | m == r) by (bit_vector)
        requires
            r == reg | m,
    ;
    r
}

/// The reset register word `reg` with peripheral `p`'s bit cleared and every other bit
/// kept: the end of a reset pulse.
pub fn release_word(reg: u32, p: Peripheral) -> (r: u32)
    ensures
        r == reg & !(1u32 << gate_of(p).1),
{
    reg & !gate(p).mask
}

/// No two peripherals share a gate: enabling or resetting one never touches another.
pub proof fn lemma_gates_distinct(p: Peripheral, q: Peripheral)
    requires
        p != q,
    ensures
        gate_of(p) != gate_of(q),
{
}

} // verus!
