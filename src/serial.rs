//! Serial port (USART) decisions: the baud-rate divisor, what a status word means for a
//! read, a write or a flush, and the interrupt-enable bits.
use vstd::prelude::*;

verus! {

/// Serial receive errors, in the order the status word is checked.
#[derive(Clone, Copy, Debug, PartialEq, Eq, Structural)]
#[non_exhaustive]
pub enum Error {
    Framing,
    Noise,
    Overrun,
    Parity,
}

/// Interrupt events
#[derive(Clone, Copy, Debug, PartialEq, Eq, Structural)]
pub enum Event {
    /// A byte was received
    Rxne,
    /// The transmit register is empty
    Txe,
    /// The line went idle
    Idle,
}

/// Status register flags.
pub const SR_PE: u32 = 1 << 0;
pub const SR_FE: u32 = 1 << 1;
pub const SR_NE: u32 = 1 << 2;
pub const SR_ORE: u32 = 1 << 3;
pub const SR_IDLE: u32 = 1 << 4;
pub const SR_RXNE: u32 = 1 << 5;
pub const SR_TC: u32 = 1 << 6;
pub const SR_TXE: u32 = 1 << 7;

/// What a read finds, given the status word `sr` and the data word `dr`: the first error
/// flag set, in the order parity, framing, noise, overrun; else the received byte (the low
/// 8 bits of `dr`) if one is waiting; else nothing yet (`Ok(None)`).
pub open spec fn read_outcome(sr: u32, dr: u32) -> Result<Option<u8>, Error> {
    if sr & SR_PE != 0 {
        Err(Error::Parity)
    } else if sr & SR_FE != 0 {
        Err(Error::Framing)
    } else if sr & SR_NE != 0 {
        Err(Error::Noise)
    } else if sr & SR_ORE != 0 {
        Err(Error::Overrun)
    } else if sr & SR_RXNE != 0 {
        Ok(Some((dr % 0x100) as u8))
    } else {
        Ok(None)
    }
}

/// Decides a non-blocking read from the status and data words read from the port.
pub fn read(sr: u32, dr: u32) -> (r: Result<Option<u8>, Error>)
    ensures
        r == read_outcome(sr, dr),
{
    if sr & SR_PE != 0 {
        Err(Error::Parity)
    } else if sr & SR_FE != 0 {
        Err(Error::Framing)
    } else if sr & SR_NE != 0 {
        Err(Error::Noise)
    } else if sr & SR_ORE != 0 {
        Err(Error::Overrun)
    } else if sr & SR_RXNE != 0 {
        assert(dr & 0xff == dr % 0x100) by (bit_vector);
        Ok(Some((dr & 0xff) as u8))
    } else {
        Ok(None)
    }
}

/// Decides a non-blocking write of `byte`: the data word to write if the transmit
/// register is empty, else `None` (try again).
pub fn write(sr: u32, byte: u8) -> (r: Option<u16>)
    ensures
        r == if sr & SR_TXE != 0 {
            Some(byte as u16)
        } else {
            None::<u16>
        },
{
    if sr & SR_TXE != 0 {
        Some(byte as u16)
    } else {
        None
    }
}

/// Whether a flush is complete: the last transmission has finished.
pub fn flush(sr: u32) -> (r: bool)
    ensures
        r == (sr & SR_TC != 0),
{
    sr & SR_TC != 0
}

/// Whether the line is idle.
pub fn is_idle(sr: u32) -> (r: bool)
    ensures
        r == (sr & SR_IDLE != 0),
{
    sr & SR_IDLE != 0
}

/// The baud-rate register value for a port clocked at `pclk` Hz running at `baud_rate`
/// bits per second.
pub fn baud_divisor(pclk: u32, baud_rate: u32) -> (r: u32)
    requires
        baud_rate > 0,
    ensures
        r == pclk / baud_rate,
{
    pclk / baud_rate
}

/// The control-register bit that enables the interrupt of an event.
pub open spec fn event_bit(event: Event) -> u32 {
    match event {
        Event::Idle => 0x10,
        Event::Rxne => 0x20,
        Event::Txe => 0x80,
    }
}

fn event_mask(event: Event) -> (r: u32)
    ensures
        r == event_bit(event),
{
    match event {
        Event::Idle => 0x10,
        Event::Rxne => 0x20,
        Event::Txe => 0x80,
    }
}

/// The control word `cr1` with the interrupt of `event` enabled.
pub fn listen(cr1: u32, event: Event) -> (r: u32)
    ensures
        r == cr1 | event_bit(event),
{
    cr1 | event_mask(event)
}

/// The control word `cr1` with the interrupt of `event` disabled.
pub fn unlisten(cr1: u32, event: Event) -> (r: u32)
    ensures
        r == cr1 & !event_bit(event),
{
    cr1 & !event_mask(event)
}

/// Enabling and then disabling an event's interrupt leaves the control word's other bits
/// as they were, and that event's bit clear.
pub proof fn lemma_listen_unlisten(cr1: u32, event: Event)
    ensures
        (cr1 | event_bit(event)) & !event_bit(event) == cr1 & !event_bit(event),
{
    let b = event_bit(event);
    assert((cr1 | b) & !b == cr1 & !b) by (bit_vector);
}

} // verus!
