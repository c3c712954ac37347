//! Timers: the count-down reload value, and the channel pin roles.
use vstd::prelude::*;

verus! {

/// Interrupt events
#[derive(Clone, Copy, Debug, PartialEq, Eq, Structural)]
pub enum Event {
    /// Timer timed out / count down ended
    TimeOut,
}

/// Largest reload value of the 24-bit system tick counter.
pub const SYST_MAX_RELOAD: u32 = 0x00ff_ffff;

/// The reload value that makes the system tick, counting at `sysclk` Hz, wrap `timeout_hz`
/// times a second: `sysclk / timeout_hz - 1`, which must fit in 24 bits.
pub fn systick_reload(sysclk: u32, timeout_hz: u32) -> (r: u32)
    requires
        timeout_hz > 0,
        1 <= sysclk / timeout_hz <= SYST_MAX_RELOAD + 1,
    ensures
        r == sysclk / timeout_hz - 1,
        r <= SYST_MAX_RELOAD,
{
    sysclk / timeout_hz - 1
}

/// Whether `systick_reload` can serve a timeout: the rate is neither zero nor above the
/// clock, nor so slow that the reload value overflows 24 bits.
pub fn systick_reload_fits(sysclk: u32, timeout_hz: u32) -> (r: bool)
    ensures
        r == (timeout_hz > 0 && 1 <= sysclk / timeout_hz <= SYST_MAX_RELOAD + 1),
{
    timeout_hz > 0 && 1 <= sysclk / timeout_hz && sysclk / timeout_hz <= SYST_MAX_RELOAD + 1
}

/// Pins that can carry channel 1 of timer `TIM`
pub trait PinC1<TIM> {}

/// Pins that can carry the complementary channel 1 of timer `TIM`
pub trait PinC1N<TIM> {}

/// Pins that can carry channel 2 of timer `TIM`
pub trait PinC2<TIM> {}

/// Pins that can carry the complementary channel 2 of timer `TIM`
pub trait PinC2N<TIM> {}

/// Pins that can carry channel 3 of timer `TIM`
pub trait PinC3<TIM> {}

/// Pins that can carry the complementary channel 3 of timer `TIM`
pub trait PinC3N<TIM> {}

/// Pins that can carry channel 4 of timer `TIM`
pub trait PinC4<TIM> {}

} // verus!
