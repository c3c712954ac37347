use py32f0xx_hal::apply::{ApplyAction, ApplyEvent, ClockApplier, ReadyFlag};
use py32f0xx_hal::rcc::{
    ahb_prescaler, apb_prescaler, flash_wait_states, get_freq, get_hsi_sel_freq, get_sww,
    hse_enable, select_sysclk_path, switch_word, ClockError, ClockStep, HSEBypassMode, HSIDiv,
    HSIFreq, MCODiv, MCOSrc, Rcc, SysClkSource, SysclkPath, Variant, CFGR,
};

#[test]
fn default_request_runs_hsi_at_24mhz() {
    let plan = CFGR::new().resolve(Variant::Py32f030).unwrap();
    assert_eq!(plan.clocks.sysclk(), 24_000_000);
    assert_eq!(plan.clocks.hclk(), 24_000_000);
    assert_eq!(plan.clocks.pclk(), 24_000_000);
    assert_eq!(
        plan.program,
        vec![
            ClockStep::SetFlashLatency { wait_states: 0 },
            ClockStep::EnableHsi { fs_bits: 4 },
            ClockStep::SwitchClock { hpre_bits: 0b0111, ppre_bits: 0b011, sw_bits: 0 },
        ]
    );
}

#[test]
fn hsi_8mhz_passthrough_has_no_multiplier() {
    let plan = CFGR::new()
        .hsi(HSIFreq::Freq8mhz)
        .sysclk(8_000_000)
        .resolve(Variant::Py32f030)
        .unwrap();
    assert_eq!(plan.clocks.sysclk(), 8_000_000);
    assert!(!plan.program.iter().any(|s| matches!(s, ClockStep::EnablePll { .. })));
}

#[test]
fn hsi_8mhz_doubled_uses_pll() {
    let plan = CFGR::new()
        .hsi(HSIFreq::Freq8mhz)
        .sysclk(16_000_000)
        .resolve(Variant::Py32f030)
        .unwrap();
    assert_eq!(plan.clocks.sysclk(), 16_000_000);
    assert_eq!(
        plan.program,
        vec![
            ClockStep::SetFlashLatency { wait_states: 0 },
            ClockStep::EnableHsi { fs_bits: 1 },
            ClockStep::EnablePll { from_hse: false },
            ClockStep::SwitchClock { hpre_bits: 0b0111, ppre_bits: 0b011, sw_bits: 2 },
        ]
    );
}

#[test]
fn doubling_without_pll_is_unsupported() {
    for v in [Variant::Py32f003, Variant::Py32f002a, Variant::Py32f002b] {
        let r = CFGR::new().hsi(HSIFreq::Freq8mhz).sysclk(16_000_000).resolve(v);
        assert_eq!(r.err(), Some(ClockError::UnsupportedMultiplier));
    }
}

#[test]
fn ratio_six_upward_is_unreachable() {
    let r = CFGR::new().hsi(HSIFreq::Freq8mhz).sysclk(48_000_000).resolve(Variant::Py32f030);
    assert_eq!(r.err(), Some(ClockError::UnreachableRatio));
}

#[test]
fn hse_needing_division_is_unreachable() {
    let r = CFGR::new()
        .hse(16_000_000, HSEBypassMode::NotBypassed)
        .sysclk(8_000_000)
        .resolve(Variant::Py32f030);
    assert_eq!(r.err(), Some(ClockError::UnreachableRatio));
}

#[test]
fn zero_sysclk_is_unreachable() {
    let r = CFGR::new().sysclk(0).resolve(Variant::Py32f030);
    assert_eq!(r.err(), Some(ClockError::UnreachableRatio));
}

#[test]
fn hse_24mhz_doubled_runs_48mhz_with_one_wait_state() {
    let plan = CFGR::new()
        .hse(24_000_000, HSEBypassMode::Bypassed)
        .sysclk(48_000_000)
        .resolve(Variant::Py32f030)
        .unwrap();
    assert_eq!(plan.clocks.sysclk(), 48_000_000);
    assert_eq!(plan.clocks.hclk(), 48_000_000);
    assert_eq!(plan.clocks.pclk(), 48_000_000);
    assert_eq!(
        plan.program,
        vec![
            ClockStep::SetFlashLatency { wait_states: 1 },
            ClockStep::EnableHse { freq_bits: 3, bypass: true },
            ClockStep::EnablePll { from_hse: true },
            ClockStep::SwitchClock { hpre_bits: 0b0111, ppre_bits: 0b011, sw_bits: 2 },
        ]
    );
}

#[test]
fn hsi_24mhz_doubled_passthrough_bus() {
    let plan = CFGR::new().sysclk(48_000_000).resolve(Variant::Py32f030).unwrap();
    assert_eq!(plan.program[0], ClockStep::SetFlashLatency { wait_states: 1 });
    assert_eq!(plan.clocks.hclk(), 48_000_000);
}

#[test]
fn hsi_divider_picks_bucket() {
    // 24 MHz / 3 MHz = 8, bucket 6..=11, divide by 8
    let plan = CFGR::new().sysclk(3_000_000).resolve(Variant::Py32f002b).unwrap();
    assert_eq!(plan.clocks.sysclk(), 3_000_000);
    assert_eq!(plan.program[1], ClockStep::SetHsiDiv { div_bits: 0b011 });
    // 24 MHz / 5 MHz = 4, bucket 3..=5, divide by 4: 6 MHz, not the 5 MHz asked
    let plan = CFGR::new().sysclk(5_000_000).resolve(Variant::Py32f002b).unwrap();
    assert_eq!(plan.clocks.sysclk(), 6_000_000);
    assert_eq!(plan.program[1], ClockStep::SetHsiDiv { div_bits: 0b010 });
    // 24 MHz / 20 MHz = 1: no division at all
    let plan = CFGR::new().sysclk(20_000_000).resolve(Variant::Py32f002b).unwrap();
    assert_eq!(plan.clocks.sysclk(), 24_000_000);
}

#[test]
fn ahb_and_apb_buckets() {
    // 48 MHz / 1 MHz = 48, bucket 40..=95, hardware divides by 64
    let plan = CFGR::new()
        .sysclk(48_000_000)
        .hclk(1_000_000)
        .pclk(250_000)
        .resolve(Variant::Py32f030)
        .unwrap();
    assert_eq!(plan.clocks.hclk(), 750_000);
    // 750 kHz / 250 kHz = 3, bucket 3..=5, divide by 4
    assert_eq!(plan.clocks.pclk(), 187_500);
    assert_eq!(
        *plan.program.last().unwrap(),
        ClockStep::SwitchClock { hpre_bits: 0b1100, ppre_bits: 0b101, sw_bits: 2 }
    );
}

#[test]
fn bus_request_above_its_parent_is_unreachable() {
    let r = CFGR::new().hclk(48_000_000).resolve(Variant::Py32f030);
    assert_eq!(r.err(), Some(ClockError::UnreachableRatio));
    let r = CFGR::new().hclk(12_000_000).pclk(24_000_000).resolve(Variant::Py32f030);
    assert_eq!(r.err(), Some(ClockError::UnreachableRatio));
    let r = CFGR::new().pclk(0).resolve(Variant::Py32f030);
    assert_eq!(r.err(), Some(ClockError::UnreachableRatio));
}

#[test]
fn clock_chain_holds() {
    for (sys, h, p) in [(24_000_000u32, 24_000_000u32, 1u32), (12_000_000, 3_000_000, 1_000_000)] {
        let plan = CFGR::new().sysclk(sys).hclk(h).pclk(p).resolve(Variant::Py32f030).unwrap();
        let c = plan.clocks;
        assert!(c.sysclk() >= c.hclk() && c.hclk() >= c.pclk());
    }
}

#[test]
fn prescaler_tables() {
    let cases = [
        (1u32, 0b0111u8),
        (2, 0b1000),
        (3, 0b1001),
        (5, 0b1001),
        (6, 0b1010),
        (11, 0b1010),
        (12, 0b1011),
        (39, 0b1011),
        (40, 0b1100),
        (95, 0b1100),
        (96, 0b1101),
        (191, 0b1101),
        (192, 0b1110),
        (383, 0b1110),
        (384, 0b1111),
        (1000, 0b1111),
    ];
    for (ratio, code) in cases {
        assert_eq!(ahb_prescaler(ratio * 1000, Some(1000)), Ok(code));
    }
    assert_eq!(ahb_prescaler(1000, None), Ok(0b0111));
    assert_eq!(ahb_prescaler(1000, Some(0)), Err(ClockError::UnreachableRatio));
    let cases = [(1u32, 0b011u8), (2, 0b100), (5, 0b101), (6, 0b110), (11, 0b110), (12, 0b111)];
    for (ratio, code) in cases {
        assert_eq!(apb_prescaler(ratio * 1000, Some(1000)), Ok(code));
    }
    assert_eq!(apb_prescaler(1000, Some(1001)), Err(ClockError::UnreachableRatio));
}

#[test]
fn wait_states_threshold() {
    assert_eq!(flash_wait_states(24_000_000), 0);
    assert_eq!(flash_wait_states(24_000_001), 1);
    assert_eq!(flash_wait_states(0), 0);
    assert_eq!(flash_wait_states(48_000_000), 1);
}

#[test]
fn sources_and_codes() {
    assert_eq!(get_freq(&SysClkSource::HSISYS(HSIFreq::Freq22_12mhz)), 22_120_000);
    assert_eq!(get_freq(&SysClkSource::HSE(12_345_678, HSEBypassMode::Bypassed)), 12_345_678);
    assert_eq!(get_hsi_sel_freq(&SysClkSource::HSE(1, HSEBypassMode::Bypassed)), 4_000_000);
    assert_eq!(get_sww(&SysClkSource::HSE(1, HSEBypassMode::Bypassed)), 1);
    assert_eq!(hse_enable(5_000_000, &HSEBypassMode::NotBypassed), ClockStep::EnableHse { freq_bits: 1, bypass: false });
    assert_eq!(hse_enable(8_000_000, &HSEBypassMode::NotBypassed), ClockStep::EnableHse { freq_bits: 2, bypass: false });
    assert_eq!(hse_enable(32_000_000, &HSEBypassMode::Bypassed), ClockStep::EnableHse { freq_bits: 0, bypass: true });
    assert_eq!(HSIDiv::Div32.divisor(), 32);
    assert_eq!(HSIDiv::Div128.bits(), 7);
    assert_eq!(
        select_sysclk_path(&SysClkSource::HSISYS(HSIFreq::Freq24mhz), 1_000_000, Variant::Py32f030),
        Ok(SysclkPath::HsiDivided(5))
    );
}

#[test]
fn register_words() {
    let rcc = Rcc { clocks: CFGR::new().resolve(Variant::Py32f030).unwrap().clocks };
    let w = rcc.configure_mco(0xffff_ffff, MCOSrc::Hsi, MCODiv::Div4);
    assert_eq!(w, 0x88ff_ffff | (3 << 24) | (2 << 28));
    assert_eq!(rcc.configure_mco(0, MCOSrc::Lse, MCODiv::Div128), 0x7700_0000);
    assert_eq!(switch_word(0, 0b1100, 0b101, 2), 0x5c02);
    assert_eq!(switch_word(0xffff_ffff, 0b0111, 0b011, 0), 0xffff_ffff & !0x7f07 | 0x3700);
}

fn run(program: Vec<ClockStep>, bound: Option<u32>, polls_until_ready: u32) -> (Vec<ApplyAction>, ApplyAction) {
    let mut applier = ClockApplier::new(program, bound);
    let mut ev = ApplyEvent::Proceed;
    let mut seen = Vec::new();
    let mut clear_polls = 0;
    for _ in 0..1000 {
        let a = applier.advance(ev);
        match a {
            ApplyAction::Write(_) => {
                clear_polls = 0;
                ev = ApplyEvent::Proceed;
            },
            ApplyAction::Poll(_) => {
                clear_polls += 1;
                ev = ApplyEvent::FlagRead(clear_polls > polls_until_ready);
            },
            ApplyAction::Done | ApplyAction::Failed(_) => return (seen, a),
        }
        seen.push(a);
    }
    panic!("applier did not finish");
}

#[test]
fn applier_writes_in_order_and_waits() {
    let plan = CFGR::new().hsi(HSIFreq::Freq8mhz).sysclk(16_000_000).resolve(Variant::Py32f030).unwrap();
    let program = plan.program.clone();
    let (seen, end) = run(plan.program, None, 3);
    assert_eq!(end, ApplyAction::Done);
    assert_eq!(
        seen,
        vec![
            ApplyAction::Write(program[0]),
            ApplyAction::Write(program[1]),
            ApplyAction::Poll(ReadyFlag::Hsi),
            ApplyAction::Poll(ReadyFlag::Hsi),
            ApplyAction::Poll(ReadyFlag::Hsi),
            ApplyAction::Poll(ReadyFlag::Hsi),
            ApplyAction::Write(program[2]),
            ApplyAction::Poll(ReadyFlag::Pll),
            ApplyAction::Poll(ReadyFlag::Pll),
            ApplyAction::Poll(ReadyFlag::Pll),
            ApplyAction::Poll(ReadyFlag::Pll),
            ApplyAction::Write(program[3]),
        ]
    );
}

#[test]
fn applier_times_out_when_bounded() {
    let plan = CFGR::new().resolve(Variant::Py32f030).unwrap();
    let (seen, end) = run(plan.program.clone(), Some(2), 5);
    assert_eq!(end, ApplyAction::Failed(ClockError::HardwareTimeout));
    assert_eq!(seen.len(), 4);
    let (_, end) = run(plan.program, Some(2), 1);
    assert_eq!(end, ApplyAction::Done);
}

#[test]
fn applier_stays_finished() {
    let mut applier = ClockApplier::new(vec![ClockStep::SetFlashLatency { wait_states: 0 }], Some(0));
    assert_eq!(applier.advance(ApplyEvent::Proceed), ApplyAction::Write(ClockStep::SetFlashLatency { wait_states: 0 }));
    assert_eq!(applier.advance(ApplyEvent::Proceed), ApplyAction::Done);
    assert_eq!(applier.advance(ApplyEvent::FlagRead(false)), ApplyAction::Done);
    let mut applier = ClockApplier::new(vec![ClockStep::EnableHsi { fs_bits: 4 }], Some(0));
    assert_eq!(applier.advance(ApplyEvent::Proceed), ApplyAction::Write(ClockStep::EnableHsi { fs_bits: 4 }));
    // a flag reported before any poll does not count
    assert_eq!(applier.advance(ApplyEvent::FlagRead(true)), ApplyAction::Failed(ClockError::HardwareTimeout));
}
