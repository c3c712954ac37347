//! Facts about clock resolution that hold for every request.
use vstd::prelude::*;

use crate::rcc::{
    ahb_choice, ahb_code, ahb_divisor, apb_choice, apb_divisor, resolution, source_hz,
    target_sysclk, ClockError, ClockFreqs, ClockRequestView, ClockStep, Variant,
};

verus! {

/// Whether the bus requests can be met from a system clock of `sysclk` Hz.
pub open spec fn buses_fit(sysclk: u32, hclk: Option<u32>, pclk: Option<u32>) -> bool {
    match ahb_choice(sysclk, hclk) {
        Ok(hpre) => apb_choice(sysclk / ahb_divisor(hpre), pclk) is Ok,
        Err(_) => false,
    }
}

/// Whether `d` is a power of two.
pub open spec fn is_pow2(d: int) -> bool
    decreases d,
{
    if d <= 0 {
        false
    } else if d == 1 {
        true
    } else {
        d % 2 == 0 && is_pow2(d / 2)
    }
}

/// A system clock equal to the source's frequency, or to twice it on a variant with the
/// multiplier, is met exactly, provided the bus requests fit under it.
pub proof fn lemma_exact_sysclk(req: ClockRequestView, variant: Variant)
    requires
        target_sysclk(req) == source_hz(req.source) || (target_sysclk(req) == 2 * source_hz(
            req.source,
        ) && variant.spec_has_pll()),
        buses_fit(target_sysclk(req), req.hclk, req.pclk),
    ensures
        resolution(req, variant) is Ok,
        resolution(req, variant)->Ok_0.1.sysclk == target_sysclk(req),
{
}

/// A system clock that is neither the source's frequency, nor twice it, nor reachable
/// through the internal oscillator's divider, is refused as unreachable.
pub proof fn lemma_unreachable_sysclk(req: ClockRequestView, variant: Variant)
    requires
        target_sysclk(req) != source_hz(req.source),
        target_sysclk(req) != 2 * source_hz(req.source),
        !(req.source is HSISYS && 0 < target_sysclk(req) < source_hz(req.source)),
    ensures
        resolution(req, variant) == Err::<(Seq<ClockStep>, ClockFreqs), ClockError>(
            ClockError::UnreachableRatio,
        ),
{
}

/// Every AHB divisor the prescaler can select is a power of two.
pub proof fn lemma_ahb_divisor_pow2(code: u8)
    ensures
        is_pow2(ahb_divisor(code) as int),
{
    reveal_with_fuel(is_pow2, 11);
}

/// Every APB divisor the prescaler can select is a power of two.
pub proof fn lemma_apb_divisor_pow2(code: u8)
    ensures
        is_pow2(apb_divisor(code) as int),
{
    reveal_with_fuel(is_pow2, 6);
}

/// A requested AHB clock picks the prescaler code of the bucket that holds the ratio
/// `sysclk / hclk`, and the achieved AHB clock is exactly the system clock divided by that
/// code's power-of-two divisor.
pub proof fn lemma_ahb_bucket(req: ClockRequestView, variant: Variant, h: u32)
    requires
        resolution(req, variant) is Ok,
        req.hclk == Some(h),
    ensures
        ({
            let (program, f) = resolution(req, variant)->Ok_0;
            let code = ahb_code(f.sysclk as int / h as int);
            &&& 0 < h <= f.sysclk
            &&& f.hclk == f.sysclk / ahb_divisor(code)
            &&& is_pow2(ahb_divisor(code) as int)
            &&& program.last() is SwitchClock
            &&& program.last()->hpre_bits == code
        }),
{
    let (program, f) = resolution(req, variant)->Ok_0;
    lemma_ahb_divisor_pow2(ahb_code(f.sysclk as int / h as int));
}

/// In every resolved tree the system clock is at least the AHB clock, which is at least
/// the APB clock.
pub proof fn lemma_clock_chain(req: ClockRequestView, variant: Variant)
    requires
        resolution(req, variant) is Ok,
    ensures
        ({
            let f = resolution(req, variant)->Ok_0.1;
            f.sysclk >= f.hclk >= f.pclk
        }),
{
    let f = resolution(req, variant)->Ok_0.1;
    let s = f.sysclk;
    let hd = ahb_divisor(ahb_choice(s, req.hclk)->Ok_0);
    let h = s / hd;
    let pd = apb_divisor(apb_choice(h, req.pclk)->Ok_0);
    assert(s / hd <= s) by (nonlinear_arith)
        requires
            hd >= 1,
    ;
    assert(h / pd <= h) by (nonlinear_arith)
        requires
            pd >= 1,
    ;
}

/// The first step of every resolved program sets the flash latency: no wait state up to
/// 24 MHz of system clock, one above.
pub proof fn lemma_wait_states(req: ClockRequestView, variant: Variant)
    requires
        resolution(req, variant) is Ok,
    ensures
        ({
            let (program, f) = resolution(req, variant)->Ok_0;
            &&& program.len() > 0
            &&& program[0] is SetFlashLatency
            &&& program[0]->wait_states == (if f.sysclk <= 24_000_000 {
                0u8
            } else {
                1u8
            })
        }),
{
}

} // verus!
