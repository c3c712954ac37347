//! General Purpose Input / Output: the pin mode type states, and the register words that
//! set a pin's mode, alternate function and output level.
use vstd::prelude::*;

use core::marker::PhantomData;

verus! {

/// Alternate function 0
pub struct AF0;

/// Alternate function 1
pub struct AF1;

/// Alternate function 2
pub struct AF2;

/// Alternate function 3
pub struct AF3;

/// Alternate function 4
pub struct AF4;

/// Alternate function 5
pub struct AF5;

/// Alternate function 6
pub struct AF6;

/// Alternate function 7
pub struct AF7;

/// Alternate function 8
pub struct AF8;

/// Alternate function 9
pub struct AF9;

/// Alternate function 10
pub struct AF10;

/// Alternate function 11
pub struct AF11;

/// Alternate function 12
pub struct AF12;

/// Alternate function 13
pub struct AF13;

/// Alternate function 14
pub struct AF14;

/// Alternate function 15
pub struct AF15;

/// Alternate function mode (type state)
pub struct Alternate<AF> {
    _mode: PhantomData<AF>,
}

/// Input mode (type state)
pub struct Input<MODE> {
    _mode: PhantomData<MODE>,
}

/// Floating input (type state)
pub struct Floating;

/// Pulled down input (type state)
pub struct PullDown;

/// Pulled up input (type state)
pub struct PullUp;

/// Open drain input or output (type state)
pub struct OpenDrain;

/// Analog mode (type state)
pub struct Analog;

/// Output mode (type state)
pub struct Output<MODE> {
    _mode: PhantomData<MODE>,
}

/// Push pull output (type state)
pub struct PushPull;

/// GPIO ports.
#[derive(Clone, Copy, Debug, PartialEq, Eq, Structural)]
pub enum Port {
    A,
    B,
    F,
}

/// Fully erased pin: its port and its index in the port.
pub struct Pin<MODE> {
    port: Port,
    i: u8,
    _mode: PhantomData<MODE>,
}

impl<MODE> Pin<MODE> {
    /// The spec view: port and index.
    pub closed spec fn spec_port(&self) -> Port {
        self.port
    }

    pub closed spec fn spec_index(&self) -> u8 {
        self.i
    }

    /// The pin with index `i` (below 16) of `port`.
    pub fn new(port: Port, i: u8) -> (r: Self)
        requires
            i < 16,
        ensures
            r.spec_port() == port,
            r.spec_index() == i,
    {
        Pin { port, i, _mode: PhantomData }
    }

    #[verifier::type_invariant]
    spec fn index_in_range(&self) -> bool {
        self.i < 16
    }

    pub fn port(&self) -> (r: Port)
        ensures
            r == self.spec_port(),
    {
        self.port
    }

    pub fn index(&self) -> (r: u8)
        ensures
            r == self.spec_index(),
            r < 16,
    {
        proof {
            use_type_invariant(self);
        }
        self.i
    }

    /// The set-reset word that drives the pin high.
    pub fn set_high(&self) -> (r: u32)
        ensures
            r == 1u32 << self.spec_index(),
    {
        proof {
            use_type_invariant(self);
        }
        bsrr_set(self.i)
    }

    /// The set-reset word that drives the pin low.
    pub fn set_low(&self) -> (r: u32)
        ensures
            r == 1u32 << (self.spec_index() + 16),
    {
        proof {
            use_type_invariant(self);
        }
        bsrr_reset(self.i)
    }

    /// Whether the pin reads low in the input data word `idr`.
    pub fn is_low(&self, idr: u32) -> (r: bool)
        ensures
            r == (idr & (1u32 << self.spec_index()) == 0),
    {
        proof {
            use_type_invariant(self);
        }
        bit_is_clear(idr, self.i)
    }

    /// Whether the pin reads high in the input data word `idr`.
    pub fn is_high(&self, idr: u32) -> (r: bool)
        ensures
            r == (idr & (1u32 << self.spec_index()) != 0),
    {
        proof {
            use_type_invariant(self);
        }
        !bit_is_clear(idr, self.i)
    }

    /// Whether the pin is driven low in the output data word `odr`.
    pub fn is_set_low(&self, odr: u32) -> (r: bool)
        ensures
            r == (odr & (1u32 << self.spec_index()) == 0),
    {
        proof {
            use_type_invariant(self);
        }
        bit_is_clear(odr, self.i)
    }

    /// Whether the pin is driven high in the output data word `odr`.
    pub fn is_set_high(&self, odr: u32) -> (r: bool)
        ensures
            r == (odr & (1u32 << self.spec_index()) != 0),
    {
        proof {
            use_type_invariant(self);
        }
        !bit_is_clear(odr, self.i)
    }
}

/// Whether bit `pos` of `word` is clear.
pub fn bit_is_clear(word: u32, pos: u8) -> (r: bool)
    requires
        pos < 32,
    ensures
        r == (word & (1u32 << pos) == 0),
{
    word & (1u32 << pos) == 0
}

/// The set-reset word that sets output `pos` high.
pub fn bsrr_set(pos: u8) -> (r: u32)
    requires
        pos < 16,
    ensures
        r == 1u32 << pos,
{
    1u32 << pos
}

/// The set-reset word that sets output `pos` low.
pub fn bsrr_reset(pos: u8) -> (r: u32)
    requires
        pos < 16,
    ensures
        r == 1u32 << (pos + 16),
{
    1u32 << (pos + 16)
}

/// Pin mode codes of the mode register.
pub const MODE_INPUT: u32 = 0b00;
pub const MODE_OUTPUT: u32 = 0b01;
pub const MODE_ALTERNATE: u32 = 0b10;
pub const MODE_ANALOG: u32 = 0b11;

/// Pull codes of the pull-up/pull-down register.
pub const PULL_NONE: u32 = 0b00;
pub const PULL_UP: u32 = 0b01;
pub const PULL_DOWN: u32 = 0b10;

/// `reg` with the 2-bit field of pin `index` set to `value` and every other bit kept: the
/// layout of the mode, speed and pull registers.
pub fn two_bit_field(reg: u32, index: u8, value: u32) -> (r: u32)
    requires
        index < 16,
        value < 4,
    ensures
        (r >> (2 * index) as u32) & 3 == value,
        r & !(3u32 << (2 * index) as u32) == reg & !(3u32 << (2 * index) as u32),
{
    let offset = 2 * index as u32;
    let r = (reg & !(3u32 << offset)) | (value << offset);
    assert(((r >> offset) & 3 == value) && (r & !(3u32 << offset) == reg & !(3u32 << offset)))
        by (bit_vector)
        requires
            offset <= 30,
            value < 4,
            r == (reg & !(3u32 << offset)) | (value << offset),
    ;
    r
}

/// `reg` with the 4-bit field of slot `slot` (below 8) set to `af` and every other bit
/// kept: the layout of the two alternate-function registers, pins 0..=7 in the low one
/// and 8..=15, slot `index - 8`, in the high one.
pub fn four_bit_field(reg: u32, slot: u8, af: u32) -> (r: u32)
    requires
        slot < 8,
        af < 16,
    ensures
        (r >> (4 * slot) as u32) & 15 == af,
        r & !(15u32 << (4 * slot) as u32) == reg & !(15u32 << (4 * slot) as u32),
{
    let offset = 4 * slot as u32;
    let r = (reg & !(15u32 << offset)) | (af << offset);
    assert(((r >> offset) & 15 == af) && (r & !(15u32 << offset) == reg & !(15u32 << offset)))
        by (bit_vector)
        requires
            offset <= 28,
            af < 16,
            r == (reg & !(15u32 << offset)) | (af << offset),
    ;
    r
}

} // verus!
