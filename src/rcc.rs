//! Reset and clock control: clock sources, the clock request, and its resolution into a
//! register program plus the frozen frequencies.
use vstd::prelude::*;

verus! {

/// Selectable frequencies of the internal high-speed oscillator (HSI).
#[derive(Clone, Copy, Debug, PartialEq, Eq, Structural)]
pub enum HSIFreq {
    Freq4mhz,
    Freq8mhz,
    Freq16mhz,
    /// 22.12 MHz
    Freq22_12mhz,
    Freq24mhz,
}

impl HSIFreq {
    /// Frequency in Hz of this HSI setting.
    pub open spec fn spec_hz(self) -> u32 {
        match self {
            HSIFreq::Freq4mhz => 4_000_000,
            HSIFreq::Freq8mhz => 8_000_000,
            HSIFreq::Freq16mhz => 16_000_000,
            HSIFreq::Freq22_12mhz => 22_120_000,
            HSIFreq::Freq24mhz => 24_000_000,
        }
    }

    /// Code of this setting in the HSI frequency-select field.
    pub open spec fn spec_bits(self) -> u8 {
        match self {
            HSIFreq::Freq4mhz => 0,
            HSIFreq::Freq8mhz => 1,
            HSIFreq::Freq16mhz => 2,
            HSIFreq::Freq22_12mhz => 3,
            HSIFreq::Freq24mhz => 4,
        }
    }

    pub fn hz(&self) -> (r: u32)
        ensures
            r == self.spec_hz(),
    {
        match self {
            HSIFreq::Freq4mhz => 4_000_000,
            HSIFreq::Freq8mhz => 8_000_000,
            HSIFreq::Freq16mhz => 16_000_000,
            HSIFreq::Freq22_12mhz => 22_120_000,
            HSIFreq::Freq24mhz => 24_000_000,
        }
    }

    pub fn bits(&self) -> (r: u8)
        ensures
            r == self.spec_bits(),
    {
        match self {
            HSIFreq::Freq4mhz => 0,
            HSIFreq::Freq8mhz => 1,
            HSIFreq::Freq16mhz => 2,
            HSIFreq::Freq22_12mhz => 3,
            HSIFreq::Freq24mhz => 4,
        }
    }
}

/// Taps of the HSI's own divider.
#[derive(Clone, Copy, Debug, PartialEq, Eq, Structural)]
pub enum HSIDiv {
    NotDivided,
    Div2,
    Div4,
    Div8,
    Div16,
    Div32,
    Div64,
    Div128,
}

impl HSIDiv {
    /// Code of this tap in the HSI divider field; the tap divides by `2^code`.
    pub open spec fn spec_bits(self) -> u8 {
        match self {
            HSIDiv::NotDivided => 0,
            HSIDiv::Div2 => 1,
            HSIDiv::Div4 => 2,
            HSIDiv::Div8 => 3,
            HSIDiv::Div16 => 4,
            HSIDiv::Div32 => 5,
            HSIDiv::Div64 => 6,
            HSIDiv::Div128 => 7,
        }
    }

    pub fn bits(&self) -> (r: u8)
        ensures
            r == self.spec_bits(),
    {
        match self {
            HSIDiv::NotDivided => 0,
            HSIDiv::Div2 => 1,
            HSIDiv::Div4 => 2,
            HSIDiv::Div8 => 3,
            HSIDiv::Div16 => 4,
            HSIDiv::Div32 => 5,
            HSIDiv::Div64 => 6,
            HSIDiv::Div128 => 7,
        }
    }

    /// The factor this tap divides by.
    pub fn divisor(&self) -> (r: u32)
        ensures
            r == 1u32 << self.spec_bits(),
    {
        let b = self.bits();
        assert(b < 8);
        assert(1u32 << b <= 128u32) by (bit_vector)
            requires
                b < 8,
        ;
        1u32 << b
    }
}

/// Whether the external oscillator input drives a crystal or takes a clock signal.
#[derive(Clone, Copy, Debug, PartialEq, Eq, Structural)]
pub enum HSEBypassMode {
    /// Not bypassed: for crystals
    NotBypassed,
    /// Bypassed: for external clock sources
    Bypassed,
}

/// Source routed to the microcontroller clock output (MCO) pin.
#[derive(Clone, Copy, Debug, PartialEq, Eq, Structural)]
pub enum MCOSrc {
    NoClock,
    Sysclk,
    Hsi,
    Hse,
    Pll,
    Lsi,
    Lse,
}

impl MCOSrc {
    /// Code of this source in the MCO select field.
    pub open spec fn spec_bits(self) -> u32 {
        match self {
            MCOSrc::NoClock => 0,
            MCOSrc::Sysclk => 1,
            MCOSrc::Hsi => 3,
            MCOSrc::Hse => 4,
            MCOSrc::Pll => 5,
            MCOSrc::Lsi => 6,
            MCOSrc::Lse => 7,
        }
    }

    pub fn bits(&self) -> (r: u32)
        ensures
            r == self.spec_bits(),
    {
        match self {
            MCOSrc::NoClock => 0,
            MCOSrc::Sysclk => 1,
            MCOSrc::Hsi => 3,
            MCOSrc::Hse => 4,
            MCOSrc::Pll => 5,
            MCOSrc::Lsi => 6,
            MCOSrc::Lse => 7,
        }
    }
}

/// Prescaler of the microcontroller clock output.
#[derive(Clone, Copy, Debug, PartialEq, Eq, Structural)]
pub enum MCODiv {
    NotDivided,
    Div2,
    Div4,
    Div8,
    Div16,
    Div32,
    Div64,
    Div128,
}

impl MCODiv {
    /// Code of this prescaler in the MCO prescaler field.
    pub open spec fn spec_bits(self) -> u32 {
        match self {
            MCODiv::NotDivided => 0,
            MCODiv::Div2 => 1,
            MCODiv::Div4 => 2,
            MCODiv::Div8 => 3,
            MCODiv::Div16 => 4,
            MCODiv::Div32 => 5,
            MCODiv::Div64 => 6,
            MCODiv::Div128 => 7,
        }
    }

    pub fn bits(&self) -> (r: u32)
        ensures
            r == self.spec_bits(),
    {
        match self {
            MCODiv::NotDivided => 0,
            MCODiv::Div2 => 1,
            MCODiv::Div4 => 2,
            MCODiv::Div8 => 3,
            MCODiv::Div16 => 4,
            MCODiv::Div32 => 5,
            MCODiv::Div64 => 6,
            MCODiv::Div128 => 7,
        }
    }
}


/// Device variants of the family, which differ in the clock hardware they carry.
#[derive(Clone, Copy, Debug, PartialEq, Eq, Structural)]
pub enum Variant {
    Py32f030,
    Py32f003,
    Py32f002a,
    Py32f002b,
}

impl Variant {
    /// Whether the variant has the fixed x2 frequency multiplier (PLL).
    pub open spec fn spec_has_pll(self) -> bool {
        self is Py32f030
    }

    pub fn has_pll(&self) -> (r: bool)
        ensures
            r == self.spec_has_pll(),
    {
        match self {
            Variant::Py32f030 => true,
            _ => false,
        }
    }
}

/// Root oscillator of the system clock.
#[derive(Clone, Copy, Debug, PartialEq, Eq, Structural)]
#[allow(clippy::upper_case_acronyms)]
pub enum SysClkSource {
    /// Internal oscillator at one of its fixed frequencies.
    HSISYS(HSIFreq),
    /// External oscillator or crystal: frequency in Hz, and bypass mode.
    HSE(u32, HSEBypassMode),
}

/// Frequency in Hz that a clock source delivers.
pub open spec fn source_hz(src: SysClkSource) -> u32 {
    match src {
        SysClkSource::HSISYS(fs) => fs.spec_hz(),
        SysClkSource::HSE(f, _) => f,
    }
}

/// Frequency of the HSI selection of a source; a fixed 4 MHz where the source is not the HSI.
pub fn get_hsi_sel_freq(c_src: &SysClkSource) -> (r: u32)
    ensures
        r == match *c_src {
            SysClkSource::HSISYS(fs) => fs.spec_hz(),
            SysClkSource::HSE(_, _) => 4_000_000u32,
        },
{
    match c_src {
        SysClkSource::HSISYS(fs) => fs.hz(),
        SysClkSource::HSE(_, _) => 4_000_000,
    }
}

/// Frequency in Hz of the selected clock source.
pub fn get_freq(c_src: &SysClkSource) -> (r: u32)
    ensures
        r == source_hz(*c_src),
{
    match c_src {
        SysClkSource::HSISYS(_) => get_hsi_sel_freq(c_src),
        SysClkSource::HSE(freq, _) => *freq,
    }
}

/// Code of the system clock switch field for each input of the clock mux.
pub const SW_HSISYS: u8 = 0;
pub const SW_HSE: u8 = 1;
pub const SW_PLL: u8 = 2;

/// Clock-mux code that selects a source directly.
pub open spec fn switch_code(src: SysClkSource) -> u8 {
    match src {
        SysClkSource::HSISYS(_) => SW_HSISYS,
        SysClkSource::HSE(_, _) => SW_HSE,
    }
}

pub fn get_sww(c_src: &SysClkSource) -> (r: u8)
    ensures
        r == switch_code(*c_src),
{
    match c_src {
        SysClkSource::HSISYS(_) => SW_HSISYS,
        SysClkSource::HSE(_, _) => SW_HSE,
    }
}

/// The coarse frequency-range class of an external oscillator, which tunes its start-up.
pub open spec fn hse_freq_code(freq: u32) -> u8 {
    if 4_000_000 <= freq < 8_000_000 {
        1
    } else if 8_000_000 <= freq < 16_000_000 {
        2
    } else if 16_000_000 <= freq < 32_000_000 {
        3
    } else {
        0
    }
}

/// One write (and, for an oscillator, the wait for its ready flag) of a clock program.
#[derive(Clone, Copy, Debug, PartialEq, Eq, Structural)]
pub enum ClockStep {
    /// Program the flash read latency, in wait states.
    SetFlashLatency { wait_states: u8 },
    /// Program the HSI divider field.
    SetHsiDiv { div_bits: u8 },
    /// Select the HSI frequency, switch the HSI on, wait for HSI ready.
    EnableHsi { fs_bits: u8 },
    /// Set the HSE frequency class and bypass, switch the HSE and its clock security on,
    /// wait for HSE ready.
    EnableHse { freq_bits: u8, bypass: bool },
    /// Select the PLL input, switch the PLL on, wait for PLL ready.
    EnablePll { from_hse: bool },
    /// One write of the AHB prescaler, the APB prescaler and the clock-mux selection.
    SwitchClock { hpre_bits: u8, ppre_bits: u8, sw_bits: u8 },
}

/// The step that starts a source and waits until it is ready.
pub open spec fn enable_step(src: SysClkSource) -> ClockStep {
    match src {
        SysClkSource::HSISYS(fs) => ClockStep::EnableHsi { fs_bits: fs.spec_bits() },
        SysClkSource::HSE(f, b) => ClockStep::EnableHse {
            freq_bits: hse_freq_code(f),
            bypass: b is Bypassed,
        },
    }
}

/// The step that starts the external oscillator.
pub fn hse_enable(freq: u32, bypassed: &HSEBypassMode) -> (r: ClockStep)
    ensures
        r == enable_step(SysClkSource::HSE(freq, *bypassed)),
{
    let freq_bits: u8 = if freq >= 4_000_000 && freq < 8_000_000 {
        0b01
    } else if freq >= 8_000_000 && freq < 16_000_000 {
        0b10
    } else if freq >= 16_000_000 && freq < 32_000_000 {
        0b11
    } else {
        0b00
    };
    let bypass = match bypassed {
        HSEBypassMode::NotBypassed => false,
        HSEBypassMode::Bypassed => true,
    };
    ClockStep::EnableHse { freq_bits, bypass }
}

/// The step that starts the internal oscillator at the given frequency.
pub fn hsi_enable(fs: &HSIFreq) -> (r: ClockStep)
    ensures
        r == enable_step(SysClkSource::HSISYS(*fs)),
{
    ClockStep::EnableHsi { fs_bits: fs.bits() }
}

/// The step that starts the requested source.
pub fn enable_clock(c_src: &SysClkSource) -> (r: ClockStep)
    ensures
        r == enable_step(*c_src),
{
    match c_src {
        SysClkSource::HSE(freq, bypassed) => hse_enable(*freq, bypassed),
        SysClkSource::HSISYS(fs) => hsi_enable(fs),
    }
}

/// The step that starts the PLL fed from the given source.
pub fn enable_pll(c_src: &SysClkSource) -> (r: ClockStep)
    ensures
        r == (ClockStep::EnablePll { from_hse: c_src is HSE }),
{
    let from_hse = match c_src {
        SysClkSource::HSISYS(_) => false,
        SysClkSource::HSE(_, _) => true,
    };
    ClockStep::EnablePll { from_hse }
}

/// Reasons a clock request cannot be carried out.
#[derive(Clone, Copy, Debug, PartialEq, Eq, Structural)]
pub enum ClockError {
    /// The request needs the x2 multiplier, which this variant lacks.
    UnsupportedMultiplier,
    /// No combination of multiplier and dividers reaches the requested frequency.
    UnreachableRatio,
    /// An oscillator or the PLL did not report ready within the allowed number of polls.
    HardwareTimeout,
}


/// HSI divider code chosen for the ratio `source / target`.
pub open spec fn hsi_div_code(ratio: int) -> u8 {
    if ratio <= 1 {
        0
    } else if ratio == 2 {
        1
    } else if ratio <= 5 {
        2
    } else if ratio <= 11 {
        3
    } else if ratio <= 23 {
        4
    } else if ratio <= 47 {
        5
    } else if ratio <= 95 {
        6
    } else {
        7
    }
}

/// Factor by which an HSI divider code divides: `2^code`.
pub open spec fn hsi_divisor(code: u8) -> u32 {
    match code {
        0 => 1,
        1 => 2,
        2 => 4,
        3 => 8,
        4 => 16,
        5 => 32,
        6 => 64,
        _ => 128,
    }
}

/// Code of the AHB prescaler field chosen for the ratio `sysclk / hclk`.
pub open spec fn ahb_code(ratio: int) -> u8 {
    if ratio <= 1 {
        0b0111
    } else if ratio == 2 {
        0b1000
    } else if ratio <= 5 {
        0b1001
    } else if ratio <= 11 {
        0b1010
    } else if ratio <= 39 {
        0b1011
    } else if ratio <= 95 {
        0b1100
    } else if ratio <= 191 {
        0b1101
    } else if ratio <= 383 {
        0b1110
    } else {
        0b1111
    }
}

/// Factor by which the hardware divides for an AHB prescaler code (there is no divide-by-32).
pub open spec fn ahb_divisor(code: u8) -> u32 {
    match code {
        0b1000 => 2,
        0b1001 => 4,
        0b1010 => 8,
        0b1011 => 16,
        0b1100 => 64,
        0b1101 => 128,
        0b1110 => 256,
        0b1111 => 512,
        _ => 1,
    }
}

/// Code of the APB prescaler field chosen for the ratio `hclk / pclk`.
pub open spec fn apb_code(ratio: int) -> u8 {
    if ratio <= 1 {
        0b011
    } else if ratio == 2 {
        0b100
    } else if ratio <= 5 {
        0b101
    } else if ratio <= 11 {
        0b110
    } else {
        0b111
    }
}

/// Factor by which the hardware divides for an APB prescaler code.
pub open spec fn apb_divisor(code: u8) -> u32 {
    match code {
        0b100 => 2,
        0b101 => 4,
        0b110 => 8,
        0b111 => 16,
        _ => 1,
    }
}

/// Flash wait states needed to run at `sysclk` Hz.
pub open spec fn flash_latency(sysclk: u32) -> u8 {
    if sysclk <= 24_000_000 {
        0
    } else {
        1
    }
}

/// HSI divider code for a ratio of at least one.
pub fn hsi_div_bits(ratio: u32) -> (r: u8)
    ensures
        r == hsi_div_code(ratio as int),
{
    if ratio <= 1 {
        0b000
    } else if ratio == 2 {
        0b001
    } else if ratio <= 5 {
        0b010
    } else if ratio <= 11 {
        0b011
    } else if ratio <= 23 {
        0b100
    } else if ratio <= 47 {
        0b101
    } else if ratio <= 95 {
        0b110
    } else {
        0b111
    }
}

pub fn hsi_div_factor(code: u8) -> (r: u32)
    ensures
        r == hsi_divisor(code),
{
    match code {
        0 => 1,
        1 => 2,
        2 => 4,
        3 => 8,
        4 => 16,
        5 => 32,
        6 => 64,
        _ => 128,
    }
}

pub fn ahb_div_factor(code: u8) -> (r: u32)
    ensures
        r == ahb_divisor(code),
{
    match code {
        0b1000 => 2,
        0b1001 => 4,
        0b1010 => 8,
        0b1011 => 16,
        0b1100 => 64,
        0b1101 => 128,
        0b1110 => 256,
        0b1111 => 512,
        _ => 1,
    }
}

pub fn apb_div_factor(code: u8) -> (r: u32)
    ensures
        r == apb_divisor(code),
{
    match code {
        0b100 => 2,
        0b101 => 4,
        0b110 => 8,
        0b111 => 16,
        _ => 1,
    }
}

/// Flash wait states for a system clock of `sysclk` Hz: none up to 24 MHz, one above.
pub fn flash_wait_states(sysclk: u32) -> (r: u8)
    ensures
        r == flash_latency(sysclk),
        r == 0 <==> sysclk <= 24_000_000,
        r == 1 <==> sysclk > 24_000_000,
{
    if sysclk <= 24_000_000 {
        0
    } else {
        1
    }
}

/// AHB prescaler code for a bus request: passthrough when none is made; the request must
/// lie in `1..=sysclk`.
pub open spec fn ahb_choice(sysclk: u32, hclk: Option<u32>) -> Result<u8, ClockError> {
    match hclk {
        None => Ok(0b0111u8),
        Some(h) => if 0 < h <= sysclk {
            Ok(ahb_code(sysclk as int / h as int))
        } else {
            Err(ClockError::UnreachableRatio)
        },
    }
}

/// APB prescaler code for a bus request: passthrough when none is made; the request must
/// lie in `1..=hclk`.
pub open spec fn apb_choice(hclk: u32, pclk: Option<u32>) -> Result<u8, ClockError> {
    match pclk {
        None => Ok(0b011u8),
        Some(p) => if 0 < p <= hclk {
            Ok(apb_code(hclk as int / p as int))
        } else {
            Err(ClockError::UnreachableRatio)
        },
    }
}

/// Chooses the AHB prescaler for the achieved system clock and the requested AHB clock.
pub fn ahb_prescaler(sysclk: u32, hclk: Option<u32>) -> (r: Result<u8, ClockError>)
    ensures
        r == ahb_choice(sysclk, hclk),
{
    match hclk {
        None => Ok(0b0111),
        Some(h) => {
            if h == 0 || h > sysclk {
                return Err(ClockError::UnreachableRatio);
            }
            let ratio = sysclk / h;
            let code: u8 = if ratio <= 1 {
                0b0111
            } else if ratio == 2 {
                0b1000
            } else if ratio <= 5 {
                0b1001
            } else if ratio <= 11 {
                0b1010
            } else if ratio <= 39 {
                0b1011
            } else if ratio <= 95 {
                0b1100
            } else if ratio <= 191 {
                0b1101
            } else if ratio <= 383 {
                0b1110
            } else {
                0b1111
            };
            Ok(code)
        },
    }
}

/// Chooses the APB prescaler for the achieved AHB clock and the requested APB clock.
pub fn apb_prescaler(hclk: u32, pclk: Option<u32>) -> (r: Result<u8, ClockError>)
    ensures
        r == apb_choice(hclk, pclk),
{
    match pclk {
        None => Ok(0b011),
        Some(p) => {
            if p == 0 || p > hclk {
                return Err(ClockError::UnreachableRatio);
            }
            let ratio = hclk / p;
            let code: u8 = if ratio <= 1 {
                0b011
            } else if ratio == 2 {
                0b100
            } else if ratio <= 5 {
                0b101
            } else if ratio <= 11 {
                0b110
            } else {
                0b111
            };
            Ok(code)
        },
    }
}


/// How the system clock is obtained from its source.
#[derive(Clone, Copy, Debug, PartialEq, Eq, Structural)]
pub enum SysclkPath {
    /// The source itself.
    Direct,
    /// The source through the x2 multiplier.
    Doubled,
    /// The HSI through its own divider, with the given divider code.
    HsiDivided(u8),
}

/// How `target` Hz is reached from `src` on `variant`, or why it cannot be.
pub open spec fn sysclk_path(src: SysClkSource, target: u32, variant: Variant) -> Result<
    SysclkPath,
    ClockError,
> {
    let f = source_hz(src);
    if target == f {
        Ok(SysclkPath::Direct)
    } else if target == 2 * f {
        if variant.spec_has_pll() {
            Ok(SysclkPath::Doubled)
        } else {
            Err(ClockError::UnsupportedMultiplier)
        }
    } else if src is HSISYS && 0 < target < f {
        Ok(SysclkPath::HsiDivided(hsi_div_code(f as int / target as int)))
    } else {
        Err(ClockError::UnreachableRatio)
    }
}

/// The system clock that `path` yields from `src` when `target` was asked for.
pub open spec fn achieved_sysclk(src: SysClkSource, target: u32, path: SysclkPath) -> u32 {
    match path {
        SysclkPath::HsiDivided(code) => source_hz(src) / hsi_divisor(code),
        _ => target,
    }
}

/// Decides how the system clock is obtained.
pub fn select_sysclk_path(c_src: &SysClkSource, target: u32, variant: Variant) -> (r: Result<
    SysclkPath,
    ClockError,
>)
    ensures
        r == sysclk_path(*c_src, target, variant),
{
    let f = get_freq(c_src);
    if target == f {
        Ok(SysclkPath::Direct)
    } else if target as u64 == 2 * (f as u64) {
        if variant.has_pll() {
            Ok(SysclkPath::Doubled)
        } else {
            Err(ClockError::UnsupportedMultiplier)
        }
    } else {
        match c_src {
            SysClkSource::HSISYS(_) => {
                if 0 < target && target < f {
                    Ok(SysclkPath::HsiDivided(hsi_div_bits(f / target)))
                } else {
                    Err(ClockError::UnreachableRatio)
                }
            },
            SysClkSource::HSE(_, _) => Err(ClockError::UnreachableRatio),
        }
    }
}

/// A clock request as plain values.
pub struct ClockRequestView {
    pub source: SysClkSource,
    pub sysclk: Option<u32>,
    pub hclk: Option<u32>,
    pub pclk: Option<u32>,
}

/// Clock request builder: the source and the wished-for frequencies of the system clock
/// and of the two buses. Nothing is checked until [`CFGR::resolve`].
pub struct CFGR {
    hclk: Option<u32>,
    pclk: Option<u32>,
    sysclk: Option<u32>,
    clock_src: SysClkSource,
}

impl View for CFGR {
    type V = ClockRequestView;

    closed spec fn view(&self) -> ClockRequestView {
        ClockRequestView {
            source: self.clock_src,
            sysclk: self.sysclk,
            hclk: self.hclk,
            pclk: self.pclk,
        }
    }
}

/// The three frequencies of a clock tree, in Hz.
#[derive(Clone, Copy, Debug, PartialEq, Eq, Structural)]
pub struct ClockFreqs {
    pub sysclk: u32,
    pub hclk: u32,
    pub pclk: u32,
}

/// Frozen clock frequencies
///
/// The existence of this value indicates that the clock configuration can no longer be
/// changed. The AHB clock never exceeds the system clock, nor the APB clock the AHB clock.
#[derive(Clone, Copy, Debug, PartialEq, Eq)]
pub struct Clocks {
    hclk: u32,
    pclk: u32,
    sysclk: u32,
}

impl View for Clocks {
    type V = ClockFreqs;

    closed spec fn view(&self) -> ClockFreqs {
        ClockFreqs { sysclk: self.sysclk, hclk: self.hclk, pclk: self.pclk }
    }
}

impl Clocks {
    #[verifier::type_invariant]
    spec fn chained(self) -> bool {
        self.sysclk >= self.hclk >= self.pclk
    }

    /// Returns the frequency of the AHB
    pub fn hclk(&self) -> (r: u32)
        ensures
            r == self@.hclk,
            r <= self@.sysclk,
    {
        proof {
            use_type_invariant(self);
        }
        self.hclk
    }

    /// Returns the frequency of the APB
    pub fn pclk(&self) -> (r: u32)
        ensures
            r == self@.pclk,
            r <= self@.hclk,
    {
        proof {
            use_type_invariant(self);
        }
        self.pclk
    }

    /// Returns the system (core) frequency
    pub fn sysclk(&self) -> (r: u32)
        ensures
            r == self@.sysclk,
    {
        self.sysclk
    }
}

/// A resolved request: the register program to run, in order, and the frequencies it yields.
pub struct ClockPlan {
    pub program: Vec<ClockStep>,
    pub clocks: Clocks,
}

/// The register program for a resolved request, in the order the hardware needs: flash
/// latency first, then the HSI divider where used, the source, and the PLL where used;
/// last, one write of both prescalers and the clock mux.
pub open spec fn clock_program(
    src: SysClkSource,
    path: SysclkPath,
    hpre: u8,
    ppre: u8,
    wait_states: u8,
) -> Seq<ClockStep> {
    let latency = seq![ClockStep::SetFlashLatency { wait_states }];
    let divider = match path {
        SysclkPath::HsiDivided(code) => seq![ClockStep::SetHsiDiv { div_bits: code }],
        _ => Seq::empty(),
    };
    let switch = match path {
        SysclkPath::Doubled => seq![
            ClockStep::EnablePll { from_hse: src is HSE },
            ClockStep::SwitchClock { hpre_bits: hpre, ppre_bits: ppre, sw_bits: SW_PLL },
        ],
        _ => seq![
            ClockStep::SwitchClock { hpre_bits: hpre, ppre_bits: ppre, sw_bits: switch_code(src) },
        ],
    };
    latency + divider + seq![enable_step(src)] + switch
}

/// The system clock asked for: the request's, or the source's own frequency.
pub open spec fn target_sysclk(req: ClockRequestView) -> u32 {
    match req.sysclk {
        Some(f) => f,
        None => source_hz(req.source),
    }
}

/// The outcome of resolving `req` on `variant`: the program and the achieved frequencies.
pub open spec fn resolution(req: ClockRequestView, variant: Variant) -> Result<
    (Seq<ClockStep>, ClockFreqs),
    ClockError,
> {
    let target = target_sysclk(req);
    match sysclk_path(req.source, target, variant) {
        Err(e) => Err(e),
        Ok(path) => {
            let sysclk = achieved_sysclk(req.source, target, path);
            match ahb_choice(sysclk, req.hclk) {
                Err(e) => Err(e),
                Ok(hpre) => {
                    let hclk = sysclk / ahb_divisor(hpre);
                    match apb_choice(hclk, req.pclk) {
                        Err(e) => Err(e),
                        Ok(ppre) => {
                            let pclk = hclk / apb_divisor(ppre);
                            Ok(
                                (
                                    clock_program(
                                        req.source,
                                        path,
                                        hpre,
                                        ppre,
                                        flash_latency(sysclk),
                                    ),
                                    ClockFreqs { sysclk, hclk, pclk },
                                ),
                            )
                        },
                    }
                },
            }
        },
    }
}

/// A plan as plain values.
pub open spec fn plan_view(r: Result<ClockPlan, ClockError>) -> Result<
    (Seq<ClockStep>, ClockFreqs),
    ClockError,
> {
    match r {
        Ok(plan) => Ok((plan.program@, plan.clocks@)),
        Err(e) => Err(e),
    }
}

proof fn lemma_div_le(x: u32, d: u32)
    requires
        d >= 1,
    ensures
        x / d <= x,
{
    assert(x / d <= x) by (nonlinear_arith)
        requires
            d >= 1,
    ;
}

impl CFGR {
    /// The request the clock controller starts from: HSI at 24 MHz, nothing else asked.
    pub fn new() -> (r: CFGR)
        ensures
            r@ == (ClockRequestView {
                source: SysClkSource::HSISYS(HSIFreq::Freq24mhz),
                sysclk: None,
                hclk: None,
                pclk: None,
            }),
    {
        CFGR {
            hclk: None,
            pclk: None,
            sysclk: None,
            clock_src: SysClkSource::HSISYS(HSIFreq::Freq24mhz),
        }
    }

    /// Uses an external oscillator of `freq` Hz as the source.
    pub fn hse(self, freq: u32, bypass: HSEBypassMode) -> (r: CFGR)
        ensures
            r@ == (ClockRequestView { source: SysClkSource::HSE(freq, bypass), ..self@ }),
    {
        CFGR { clock_src: SysClkSource::HSE(freq, bypass), ..self }
    }

    /// Uses the internal oscillator at `fs` as the source.
    pub fn hsi(self, fs: HSIFreq) -> (r: CFGR)
        ensures
            r@ == (ClockRequestView { source: SysClkSource::HSISYS(fs), ..self@ }),
    {
        CFGR { clock_src: SysClkSource::HSISYS(fs), ..self }
    }

    /// Asks for an AHB clock of `freq` Hz.
    pub fn hclk(self, freq: u32) -> (r: CFGR)
        ensures
            r@ == (ClockRequestView { hclk: Some(freq), ..self@ }),
    {
        CFGR { hclk: Some(freq), ..self }
    }

    /// Asks for an APB clock of `freq` Hz.
    pub fn pclk(self, freq: u32) -> (r: CFGR)
        ensures
            r@ == (ClockRequestView { pclk: Some(freq), ..self@ }),
    {
        CFGR { pclk: Some(freq), ..self }
    }

    /// Asks for a system clock of `freq` Hz.
    pub fn sysclk(self, freq: u32) -> (r: CFGR)
        ensures
            r@ == (ClockRequestView { sysclk: Some(freq), ..self@ }),
    {
        CFGR { sysclk: Some(freq), ..self }
    }

    /// Resolves the request on `variant` into the register program and the frequencies
    /// it yields. Touches no hardware.
    pub fn resolve(&self, variant: Variant) -> (r: Result<ClockPlan, ClockError>)
        ensures
            plan_view(r) == resolution(self@, variant),
    {
        let src_hz = get_freq(&self.clock_src);
        let target = match self.sysclk {
            Some(f) => f,
            None => src_hz,
        };
        let path = match select_sysclk_path(&self.clock_src, target, variant) {
            Ok(p) => p,
            Err(e) => return Err(e),
        };
        let sysclk = match path {
            SysclkPath::HsiDivided(code) => src_hz / hsi_div_factor(code),
            _ => target,
        };
        let hpre = match ahb_prescaler(sysclk, self.hclk) {
            Ok(c) => c,
            Err(e) => return Err(e),
        };
        let hclk = sysclk / ahb_div_factor(hpre);
        let ppre = match apb_prescaler(hclk, self.pclk) {
            Ok(c) => c,
            Err(e) => return Err(e),
        };
        let pclk = hclk / apb_div_factor(ppre);
        proof {
            lemma_div_le(sysclk, ahb_divisor(hpre));
            lemma_div_le(hclk, apb_divisor(ppre));
        }
        let wait_states = flash_wait_states(sysclk);

        let mut program: Vec<ClockStep> = Vec::new();
        program.push(ClockStep::SetFlashLatency { wait_states });
        if let SysclkPath::HsiDivided(code) = path {
            program.push(ClockStep::SetHsiDiv { div_bits: code });
        }
        program.push(enable_clock(&self.clock_src));
        match path {
            SysclkPath::Doubled => {
                program.push(enable_pll(&self.clock_src));
                program.push(
                    ClockStep::SwitchClock { hpre_bits: hpre, ppre_bits: ppre, sw_bits: SW_PLL },
                );
            },
            _ => {
                let sw = get_sww(&self.clock_src);
                program.push(ClockStep::SwitchClock { hpre_bits: hpre, ppre_bits: ppre, sw_bits: sw });
            },
        }
        assert(program@ =~= clock_program(self.clock_src, path, hpre, ppre, wait_states));
        Ok(ClockPlan { program, clocks: Clocks { hclk, pclk, sysclk } })
    }
}


/// Bits of the clock configuration register holding the MCO select (24..=26) and MCO
/// prescaler (28..=30) fields.
pub const CFGR_MCO_MASK: u32 = 0x7700_0000;

/// Bits of the clock configuration register holding the clock switch (0..=2), AHB
/// prescaler (8..=11) and APB prescaler (12..=14) fields.
pub const CFGR_SWITCH_MASK: u32 = 0x0000_7f07;

/// Constrained RCC peripheral: the frozen clocks.
pub struct Rcc {
    pub clocks: Clocks,
}

impl Rcc {
    /// The new value of the clock configuration register, `cfgr` before, that routes `sel`
    /// through `pre` to the clock output pin and keeps every other bit.
    pub fn configure_mco(&self, cfgr: u32, sel: MCOSrc, pre: MCODiv) -> (r: u32)
        ensures
            (r >> 24u32) & 7 == sel.spec_bits(),
            (r >> 28u32) & 7 == pre.spec_bits(),
            r & !CFGR_MCO_MASK == cfgr & !CFGR_MCO_MASK,
    {
        let s = sel.bits();
        let p = pre.bits();
        let r = (cfgr & !CFGR_MCO_MASK) | (s << 24u32) | (p << 28u32);
        assert(((r >> 24u32) & 7 == s) && ((r >> 28u32) & 7 == p) && (r & !0x7700_0000u32
            == cfgr & !0x7700_0000u32)) by (bit_vector)
            requires
                s < 8,
                p < 8,
                r == (cfgr & !0x7700_0000u32) | (s << 24u32) | (p << 28u32),
        ;
        r
    }
}

/// The new value of the clock configuration register, `cfgr` before, for the single write
/// of a [`ClockStep::SwitchClock`]: the three fields set together, every other bit kept.
pub fn switch_word(cfgr: u32, hpre_bits: u8, ppre_bits: u8, sw_bits: u8) -> (r: u32)
    requires
        hpre_bits < 16,
        ppre_bits < 8,
        sw_bits < 8,
    ensures
        r & 7 == sw_bits,
        (r >> 8u32) & 15 == hpre_bits,
        (r >> 12u32) & 7 == ppre_bits,
        r & !CFGR_SWITCH_MASK == cfgr & !CFGR_SWITCH_MASK,
{
    let h = hpre_bits as u32;
    let p = ppre_bits as u32;
    let s = sw_bits as u32;
    let r = (cfgr & !CFGR_SWITCH_MASK) | s | (h << 8u32) | (p << 12u32);
    assert((r & 7 == s) && ((r >> 8u32) & 15 == h) && ((r >> 12u32) & 7 == p) && (r
        & !0x0000_7f07u32 == cfgr & !0x0000_7f07u32)) by (bit_vector)
        requires
            h < 16,
            p < 8,
            s < 8,
            r == (cfgr & !0x0000_7f07u32) | s | (h << 8u32) | (p << 12u32),
    ;
    r
}

} // verus!
