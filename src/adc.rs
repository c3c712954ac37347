//! Analog to digital converter: its configuration, the internal temperature sensor and
//! voltage reference, and the arithmetic on conversion results.
//!
//! [`Adc`] models the converter's settings, which the caller owns the hardware for and
//! programs from the codes given here; conversions themselves are read by the caller and
//! handed in.
use vstd::prelude::*;

verus! {

/// ADC Clock mode, select adc clock source
#[derive(Clone, Copy, Debug, PartialEq, Eq, Structural)]
pub enum AdcClockMode {
    /// PCLK
    Pclk,
    /// PCLK/2
    PclkDiv2,
    /// PCLK/4
    PclkDiv4,
    /// PCLK/8
    PclkDiv8,
    /// PCLK/16
    PclkDiv16,
    /// PCLK/32
    PclkDiv32,
    /// PCLK/64
    PclkDiv64,
    /// HSI
    Hsi,
    /// HSI/2
    HsiDiv2,
    /// HSI/4
    HsiDiv4,
    /// HSI/8
    HsiDiv8,
    /// HSI/16
    HsiDiv16,
    /// HSI/32
    HsiDiv32,
    /// HSI/64
    HsiDiv64,
}

impl AdcClockMode {
    /// Get the default clock mode (currently PCLK)
    pub fn default() -> (r: Self)
        ensures
            r == AdcClockMode::Pclk,
    {
        AdcClockMode::Pclk
    }

    /// Code of this mode in the clock-mode field.
    pub open spec fn spec_bits(self) -> u8 {
        match self {
            AdcClockMode::Pclk => 0,
            AdcClockMode::PclkDiv2 => 1,
            AdcClockMode::PclkDiv4 => 2,
            AdcClockMode::PclkDiv8 => 3,
            AdcClockMode::PclkDiv16 => 4,
            AdcClockMode::PclkDiv32 => 5,
            AdcClockMode::PclkDiv64 => 6,
            AdcClockMode::Hsi => 8,
            AdcClockMode::HsiDiv2 => 9,
            AdcClockMode::HsiDiv4 => 10,
            AdcClockMode::HsiDiv8 => 11,
            AdcClockMode::HsiDiv16 => 12,
            AdcClockMode::HsiDiv32 => 13,
            AdcClockMode::HsiDiv64 => 14,
        }
    }

    pub fn bits(&self) -> (r: u8)
        ensures
            r == self.spec_bits(),
    {
        match self {
            AdcClockMode::Pclk => 0,
            AdcClockMode::PclkDiv2 => 1,
            AdcClockMode::PclkDiv4 => 2,
            AdcClockMode::PclkDiv8 => 3,
            AdcClockMode::PclkDiv16 => 4,
            AdcClockMode::PclkDiv32 => 5,
            AdcClockMode::PclkDiv64 => 6,
            AdcClockMode::Hsi => 8,
            AdcClockMode::HsiDiv2 => 9,
            AdcClockMode::HsiDiv4 => 10,
            AdcClockMode::HsiDiv8 => 11,
            AdcClockMode::HsiDiv16 => 12,
            AdcClockMode::HsiDiv32 => 13,
            AdcClockMode::HsiDiv64 => 14,
        }
    }
}

/// ADC Sampling time
///
/// Options for the sampling time, each is T + 0.5 ADC clock cycles.
#[derive(Clone, Copy, Debug, PartialEq, Eq, Structural)]
pub enum AdcSampleTime {
    /// 3.5 cycles sampling time
    T_3,
    /// 5.5 cycles sampling time
    T_5,
    /// 7.5 cycles sampling time
    T_7,
    /// 13.5 cycles sampling time
    T_13,
    /// 28.5 cycles sampling time
    T_28,
    /// 41.5 cycles sampling time
    T_41,
    /// 71.5 cycles sampling time
    T_71,
    /// 239.5 cycles sampling time
    T_239,
}

impl AdcSampleTime {
    /// Get the default sample time (currently 239.5 cycles)
    pub fn default() -> (r: Self)
        ensures
            r == AdcSampleTime::T_239,
    {
        AdcSampleTime::T_239
    }

    /// Code of this sampling time in the sampling-time field.
    pub open spec fn spec_bits(self) -> u8 {
        match self {
            AdcSampleTime::T_3 => 0,
            AdcSampleTime::T_5 => 1,
            AdcSampleTime::T_7 => 2,
            AdcSampleTime::T_13 => 3,
            AdcSampleTime::T_28 => 4,
            AdcSampleTime::T_41 => 5,
            AdcSampleTime::T_71 => 6,
            AdcSampleTime::T_239 => 7,
        }
    }

    pub fn bits(&self) -> (r: u8)
        ensures
            r == self.spec_bits(),
    {
        match self {
            AdcSampleTime::T_3 => 0,
            AdcSampleTime::T_5 => 1,
            AdcSampleTime::T_7 => 2,
            AdcSampleTime::T_13 => 3,
            AdcSampleTime::T_28 => 4,
            AdcSampleTime::T_41 => 5,
            AdcSampleTime::T_71 => 6,
            AdcSampleTime::T_239 => 7,
        }
    }
}

/// ADC Result Alignment
#[derive(Clone, Copy, Debug, PartialEq, Eq, Structural)]
pub enum AdcAlign {
    /// Left aligned results (most significant bits)
    ///
    /// Results in all precisions returning a value in the range 0-65535.
    /// Depending on the precision the result will step by larger or smaller
    /// amounts.
    Left,
    /// Right aligned results (least significant bits)
    ///
    /// Results in all precisions returning values from 0-(2^bits-1) in
    /// steps of 1.
    Right,
    /// Left aligned results without correction of 6bit values.
    ///
    /// Returns left aligned results exactly as the hardware delivers them:
    /// left aligned within the u16, except in 6 bit mode, where the value is
    /// left aligned within the first byte of the u16.
    LeftAsRM,
}

impl AdcAlign {
    /// Get the default alignment (currently right aligned)
    pub fn default() -> (r: Self)
        ensures
            r == AdcAlign::Right,
    {
        AdcAlign::Right
    }

    /// Code of this alignment in the alignment bit.
    pub open spec fn spec_bits(self) -> u8 {
        match self {
            AdcAlign::Right => 0,
            _ => 1,
        }
    }

    pub fn bits(&self) -> (r: u8)
        ensures
            r == self.spec_bits(),
    {
        match self {
            AdcAlign::Left => 1,
            AdcAlign::Right => 0,
            AdcAlign::LeftAsRM => 1,
        }
    }
}

/// ADC Sampling Precision
#[derive(Clone, Copy, Debug, PartialEq, Eq, Structural)]
pub enum AdcPrecision {
    /// 12 bit precision
    B_12,
    /// 10 bit precision
    B_10,
    /// 8 bit precision
    B_8,
    /// 6 bit precision
    B_6,
}

impl AdcPrecision {
    /// Get the default precision (currently 12 bit precision)
    pub fn default() -> (r: Self)
        ensures
            r == AdcPrecision::B_12,
    {
        AdcPrecision::B_12
    }

    /// Code of this precision in the resolution field.
    pub open spec fn spec_bits(self) -> u8 {
        match self {
            AdcPrecision::B_12 => 0,
            AdcPrecision::B_10 => 1,
            AdcPrecision::B_8 => 2,
            AdcPrecision::B_6 => 3,
        }
    }

    pub fn bits(&self) -> (r: u8)
        ensures
            r == self.spec_bits(),
    {
        match self {
            AdcPrecision::B_12 => 0,
            AdcPrecision::B_10 => 1,
            AdcPrecision::B_8 => 2,
            AdcPrecision::B_6 => 3,
        }
    }
}


/// A stored ADC config, can be restored by using the `Adc::restore_cfg` method
#[derive(Clone, Copy, Debug, PartialEq, Eq, Structural)]
pub struct StoredConfig(pub AdcSampleTime, pub AdcAlign, pub AdcPrecision);

/// The converter's state as plain values.
#[derive(Clone, Copy, Debug, PartialEq, Eq, Structural)]
pub struct AdcState {
    pub sample_time: AdcSampleTime,
    pub align: AdcAlign,
    pub precision: AdcPrecision,
    pub clock_mode: AdcClockMode,
    /// The temperature sensor's enable bit.
    pub vtemp_enabled: bool,
    /// The voltage reference's enable bit.
    pub vref_enabled: bool,
}

impl AdcState {
    /// The configuration part of the state.
    pub open spec fn cfg(self) -> StoredConfig {
        StoredConfig(self.sample_time, self.align, self.precision)
    }

    /// The state with the configuration replaced by `cfg`.
    pub open spec fn with_cfg(self, cfg: StoredConfig) -> AdcState {
        AdcState { sample_time: cfg.0, align: cfg.1, precision: cfg.2, ..self }
    }
}

/// The default configuration: 239.5 cycles, right aligned, 12 bits.
pub open spec fn default_config() -> StoredConfig {
    StoredConfig(AdcSampleTime::T_239, AdcAlign::Right, AdcPrecision::B_12)
}

/// Largest sample value the hardware can return for an alignment and precision.
pub open spec fn max_sample_of(align: AdcAlign, precision: AdcPrecision) -> u16 {
    match align {
        AdcAlign::Left => 0xffff,
        AdcAlign::LeftAsRM => match precision {
            AdcPrecision::B_6 => 0xff,
            _ => 0xffff,
        },
        AdcAlign::Right => match precision {
            AdcPrecision::B_12 => 0x0fff,
            AdcPrecision::B_10 => 0x03ff,
            AdcPrecision::B_8 => 0x00ff,
            AdcPrecision::B_6 => 0x003f,
        },
    }
}

/// Field codes of the configuration registers for a set of settings.
#[derive(Clone, Copy, Debug, PartialEq, Eq, Structural)]
pub struct AdcCfgBits {
    /// Sampling-time field.
    pub smp: u8,
    /// Resolution field.
    pub res: u8,
    /// Alignment bit.
    pub align: u8,
}

/// Analog to Digital converter interface
pub struct Adc {
    sample_time: AdcSampleTime,
    align: AdcAlign,
    precision: AdcPrecision,
    clock_mode: AdcClockMode,
    vtemp_enabled: bool,
    vref_enabled: bool,
}

impl View for Adc {
    type V = AdcState;

    closed spec fn view(&self) -> AdcState {
        AdcState {
            sample_time: self.sample_time,
            align: self.align,
            precision: self.precision,
            clock_mode: self.clock_mode,
            vtemp_enabled: self.vtemp_enabled,
            vref_enabled: self.vref_enabled,
        }
    }
}

impl Adc {
    /// Init a new Adc clocked by `ckmode`, with all configurable parameters at their
    /// defaults and both internal channels off, as after a reset.
    pub fn new(ckmode: AdcClockMode) -> (r: Self)
        ensures
            r@.cfg() == default_config(),
            r@.clock_mode == ckmode,
            !r@.vtemp_enabled,
            !r@.vref_enabled,
    {
        Adc {
            sample_time: AdcSampleTime::default(),
            align: AdcAlign::default(),
            precision: AdcPrecision::default(),
            clock_mode: ckmode,
            vtemp_enabled: false,
            vref_enabled: false,
        }
    }

    /// Saves a copy of the current ADC config
    pub fn save_cfg(&mut self) -> (r: StoredConfig)
        ensures
            r == old(self)@.cfg(),
            final(self)@ == old(self)@,
    {
        StoredConfig(self.sample_time, self.align, self.precision)
    }

    /// Restores a stored config
    pub fn restore_cfg(&mut self, cfg: StoredConfig)
        ensures
            final(self)@ == old(self)@.with_cfg(cfg),
    {
        self.sample_time = cfg.0;
        self.align = cfg.1;
        self.precision = cfg.2;
    }

    /// Resets the ADC config to default, returning the existing config as
    /// a stored config.
    pub fn default_cfg(&mut self) -> (r: StoredConfig)
        ensures
            r == old(self)@.cfg(),
            final(self)@ == old(self)@.with_cfg(default_config()),
    {
        let cfg = self.save_cfg();
        self.sample_time = AdcSampleTime::default();
        self.align = AdcAlign::default();
        self.precision = AdcPrecision::default();
        cfg
    }

    /// Set the Adc sampling time
    pub fn set_sample_time(&mut self, t_samp: AdcSampleTime)
        ensures
            final(self)@ == (AdcState { sample_time: t_samp, ..old(self)@ }),
    {
        self.sample_time = t_samp;
    }

    /// Set the Adc result alignment
    pub fn set_align(&mut self, align: AdcAlign)
        ensures
            final(self)@ == (AdcState { align, ..old(self)@ }),
    {
        self.align = align;
    }

    /// Set the Adc precision
    pub fn set_precision(&mut self, precision: AdcPrecision)
        ensures
            final(self)@ == (AdcState { precision, ..old(self)@ }),
    {
        self.precision = precision;
    }

    /// The clock the converter runs from.
    pub fn clock_mode(&self) -> (r: AdcClockMode)
        ensures
            r == self@.clock_mode,
    {
        self.clock_mode
    }

    /// Returns the largest possible sample value for the current settings
    pub fn max_sample(&self) -> (r: u16)
        ensures
            r == max_sample_of(self@.align, self@.precision),
            r > 0,
    {
        match self.align {
            AdcAlign::Left => 0xffff,
            AdcAlign::LeftAsRM => match self.precision {
                AdcPrecision::B_6 => 0xff,
                _ => 0xffff,
            },
            AdcAlign::Right => match self.precision {
                AdcPrecision::B_12 => 0x0fff,
                AdcPrecision::B_10 => 0x03ff,
                AdcPrecision::B_8 => 0x00ff,
                AdcPrecision::B_6 => 0x003f,
            },
        }
    }

    /// The field codes that program the current sampling time, precision and alignment.
    pub fn apply_cfg(&self) -> (r: AdcCfgBits)
        ensures
            r == (AdcCfgBits {
                smp: self@.sample_time.spec_bits(),
                res: self@.precision.spec_bits(),
                align: self@.align.spec_bits(),
            }),
    {
        AdcCfgBits {
            smp: self.sample_time.bits(),
            res: self.precision.bits(),
            align: self.align.bits(),
        }
    }

    /// Turns the data register's value after a conversion into the sample: the low 16 bits,
    /// moved into the high byte for 6 bit results under [`AdcAlign::Left`].
    pub fn convert(&self, dr: u32) -> (r: u16)
        ensures
            r == if self@.align == AdcAlign::Left && self@.precision == AdcPrecision::B_6 {
                ((dr % 0x100) * 0x100) as u16
            } else {
                (dr % 0x1_0000) as u16
            },
    {
        let res = (dr & 0xffff) as u16;
        assert(dr & 0xffff == dr % 0x1_0000) by (bit_vector);
        if self.align == AdcAlign::Left && self.precision == AdcPrecision::B_6 {
            let low = res & 0xff;
            assert(res & 0xff == res % 0x100) by (bit_vector);
            assert(low << 8u16 == low * 0x100) by (bit_vector)
                requires
                    low < 0x100,
            ;
            low << 8u16
        } else {
            res
        }
    }

    /// Converts a sample taken under the current settings to milli-volts, given the
    /// analog supply `vdda` in milli-volts: `sample * vdda / max_sample`, truncated to 16
    /// bits.
    pub fn read_abs_mv(&self, vdda: u16, sample: u16) -> (r: u16)
        ensures
            r == ((sample as int * vdda as int / max_sample_of(self@.align, self@.precision) as int)
                % 0x1_0000) as u16,
    {
        let max_samp = self.max_sample() as u32;
        let (a, b) = (sample as u32, vdda as u32);
        assert(a * b <= 0xffff * 0xffff) by (nonlinear_arith)
            requires
                a <= 0xffff,
                b <= 0xffff,
        ;
        let prod = sample as u32 * vdda as u32;
        let q = prod / max_samp;
        let r = (q & 0xffff) as u16;
        assert(q & 0xffff == q % 0x1_0000) by (bit_vector);
        r
    }
}

/// The channel-select register value that selects only channel `chan`.
pub fn channel_mask(chan: u8) -> (r: u32)
    requires
        chan < 32,
    ensures
        r == 1u32 << chan,
{
    1u32 << chan
}


/// Temperatures, in degrees centigrade, at which the two factory calibration readings of
/// the temperature sensor were taken.
pub const VTEMPVAL_LOW: u16 = 30;
pub const VTEMPVAL_HIGH: u16 = 85;

/// Voltage of the internal reference, in milli-volts.
pub const VREFINT_VAL: u16 = 1200;

/// Channel of the internal temperature sensor.
pub const VTEMP_CHANNEL: u8 = 11;

/// Channel of the internal voltage reference.
pub const VREF_CHANNEL: u8 = 12;

/// Integer division rounding toward zero, as the hardware and Rust divide signed values.
pub open spec fn div_toward_zero(a: int, b: int) -> int {
    let q = (if a >= 0 {
        a
    } else {
        -a
    }) / (if b >= 0 {
        b
    } else {
        -b
    });
    if (a >= 0 && b > 0) || (a <= 0 && b < 0) {
        q
    } else {
        -q
    }
}

/// Temperature in tenths of a degree centigrade for a sensor reading `raw`, by linear
/// interpolation between the calibration readings `cal_low` (at 30 degrees) and
/// `cal_high` (at 85 degrees).
pub open spec fn temp_tenths(raw: u16, cal_low: u16, cal_high: u16) -> int {
    div_toward_zero(
        (raw - cal_low) * 100 * (VTEMPVAL_HIGH - VTEMPVAL_LOW),
        cal_high - cal_low,
    ) + 3000
}

/// The analog supply, in milli-volts, for a reading `raw` of the internal reference taken
/// at 12 bits, right aligned; truncated to 16 bits.
pub open spec fn vdda_mv(raw: u16) -> u16 {
    (((VREFINT_VAL as int * 4095) / raw as int) % 0x1_0000) as u16
}

impl AdcState {
    /// The state with the temperature sensor's enable bit set to `on`.
    pub open spec fn with_vtemp(self, on: bool) -> AdcState {
        AdcState { vtemp_enabled: on, ..self }
    }

    /// The state with the voltage reference's enable bit set to `on`.
    pub open spec fn with_vref(self, on: bool) -> AdcState {
        AdcState { vref_enabled: on, ..self }
    }
}

/// What a reading of an internal channel must restore once the sample is in: whether the
/// channel was already on, and the configuration it replaced.
#[derive(Clone, Copy, Debug, PartialEq, Eq, Structural)]
pub struct SensorReading {
    pub was_enabled: bool,
    pub saved: StoredConfig,
}

/// Internal temperature sensor (ADC Channel 11)
#[derive(Debug)]
pub struct VTemp;

/// Internal voltage reference (ADC Channel 12)
#[derive(Debug)]
pub struct VRef;

impl VTemp {
    /// Init a new VTemp
    pub fn new() -> (r: Self) {
        VTemp
    }

    /// The converter channel of the sensor.
    pub fn channel() -> (r: u8)
        ensures
            r == VTEMP_CHANNEL,
    {
        VTEMP_CHANNEL
    }

    /// Enable the internal temperature sense, this has a wake up time
    /// t<sub>START</sub> which can be found in your micro's datasheet, you
    /// must wait at least that long after enabling before taking a reading.
    /// Remember to disable when not in use.
    pub fn enable(&mut self, adc: &mut Adc)
        ensures
            final(adc)@ == old(adc)@.with_vtemp(true),
    {
        adc.vtemp_enabled = true;
    }

    /// Disable the internal temperature sense.
    pub fn disable(&mut self, adc: &mut Adc)
        ensures
            final(adc)@ == old(adc)@.with_vtemp(false),
    {
        adc.vtemp_enabled = false;
    }

    /// Checks if the temperature sensor is enabled, does not account for the
    /// t<sub>START</sub> time however.
    pub fn is_enabled(&self, adc: &Adc) -> (r: bool)
        ensures
            r == adc@.vtemp_enabled,
    {
        adc.vtemp_enabled
    }

    /// Temperature in tenths of a degree centigrade for the reading `vtemp`, from the
    /// factory calibration readings at 30 and 85 degrees; truncated to 16 bits.
    pub fn convert_temp(vtemp: u16, cal_low: u16, cal_high: u16) -> (r: i16)
        requires
            cal_low != cal_high,
        ensures
            r == temp_tenths(vtemp, cal_low, cal_high) as i16,
            i16::MIN <= temp_tenths(vtemp, cal_low, cal_high) <= i16::MAX ==> r == temp_tenths(
                vtemp,
                cal_low,
                cal_high,
            ),
    {
        let delta = (VTEMPVAL_HIGH - VTEMPVAL_LOW) as i32;
        let diff = vtemp as i32 - cal_low as i32;
        assert(-0xffff * 5500 <= diff * 100 * delta <= 0xffff * 5500) by (nonlinear_arith)
            requires
                -0xffff <= diff <= 0xffff,
                delta == 55,
        ;
        let num: i32 = diff * 100 * delta;
        let den: i32 = cal_high as i32 - cal_low as i32;
        let an: u32 = if num < 0 {
            (-num) as u32
        } else {
            num as u32
        };
        let ad: u32 = if den < 0 {
            (-den) as u32
        } else {
            den as u32
        };
        let q: u32 = an / ad;
        assert(q <= an) by (nonlinear_arith)
            requires
                ad >= 1,
                q == an / ad,
        ;
        let signed_q: i32 = if (num >= 0 && den > 0) || (num <= 0 && den < 0) {
            q as i32
        } else {
            -(q as i32)
        };
        let t: i32 = signed_q + 3000;
        assert(t == temp_tenths(vtemp, cal_low, cal_high));
        #[verifier::truncate]
        let r = t as i16;
        r
    }

    /// Begins a reading of the sensor: switches it on if it is off, and sets the default
    /// configuration. Where the sensor was off, the caller waits its start-up time before
    /// taking the sample.
    pub fn start_read(adc: &mut Adc) -> (r: SensorReading)
        ensures
            r == (SensorReading { was_enabled: old(adc)@.vtemp_enabled, saved: old(adc)@.cfg() }),
            final(adc)@ == old(adc)@.with_cfg(default_config()).with_vtemp(true),
    {
        let mut vtemp = Self::new();
        let was_enabled = vtemp.is_enabled(adc);
        if !was_enabled {
            vtemp.enable(adc);
        }
        let saved = adc.default_cfg();
        SensorReading { was_enabled, saved }
    }

    /// Completes a reading begun by [`VTemp::start_read`], given the sample taken since
    /// and the factory calibration readings: switches the sensor back off if it was off,
    /// restores the configuration, and returns the temperature in tenths of a degree
    /// centigrade.
    pub fn read(
        adc: &mut Adc,
        pending: SensorReading,
        sample: u16,
        cal_low: u16,
        cal_high: u16,
    ) -> (r: i16)
        requires
            cal_low != cal_high,
        ensures
            r == temp_tenths(sample, cal_low, cal_high) as i16,
            final(adc)@ == old(adc)@.with_cfg(pending.saved).with_vtemp(
                pending.was_enabled && old(adc)@.vtemp_enabled,
            ),
    {
        let mut vtemp = Self::new();
        if !pending.was_enabled {
            vtemp.disable(adc);
        }
        adc.restore_cfg(pending.saved);
        Self::convert_temp(sample, cal_low, cal_high)
    }
}

impl VRef {
    /// Init a new VRef
    pub fn new() -> (r: Self) {
        VRef
    }

    /// The converter channel of the reference.
    pub fn channel() -> (r: u8)
        ensures
            r == VREF_CHANNEL,
    {
        VREF_CHANNEL
    }

    /// Enable the internal voltage reference, remember to disable when not in use.
    pub fn enable(&mut self, adc: &mut Adc)
        ensures
            final(adc)@ == old(adc)@.with_vref(true),
    {
        adc.vref_enabled = true;
    }

    /// Disable the internal reference voltage.
    pub fn disable(&mut self, adc: &mut Adc)
        ensures
            final(adc)@ == old(adc)@.with_vref(false),
    {
        adc.vref_enabled = false;
    }

    /// Returns if the internal voltage reference is enabled.
    pub fn is_enabled(&self, adc: &Adc) -> (r: bool)
        ensures
            r == adc@.vref_enabled,
    {
        adc.vref_enabled
    }

    /// Begins a reading of the reference: sets the default configuration and switches the
    /// reference on if it is off.
    pub fn start_read(adc: &mut Adc) -> (r: SensorReading)
        ensures
            r == (SensorReading { was_enabled: old(adc)@.vref_enabled, saved: old(adc)@.cfg() }),
            final(adc)@ == old(adc)@.with_cfg(default_config()).with_vref(true),
    {
        let mut vref = Self::new();
        let saved = adc.default_cfg();
        let was_enabled = vref.is_enabled(adc);
        if !was_enabled {
            vref.enable(adc);
        }
        SensorReading { was_enabled, saved }
    }

    /// Completes a reading begun by [`VRef::start_read`], given the sample taken since:
    /// switches the reference back off if it was off, restores the configuration, and
    /// returns VDDA in milli-volts.
    pub fn read_vdda(adc: &mut Adc, pending: SensorReading, sample: u16) -> (r: u16)
        requires
            sample > 0,
        ensures
            r == vdda_mv(sample),
            final(adc)@ == old(adc)@.with_cfg(pending.saved).with_vref(
                pending.was_enabled && old(adc)@.vref_enabled,
            ),
    {
        let mut vref = Self::new();
        if !pending.was_enabled {
            vref.disable(adc);
        }
        adc.restore_cfg(pending.saved);
        let q = (VREFINT_VAL as u32 * 4095) / sample as u32;
        assert(q & 0xffff == q % 0x1_0000) by (bit_vector);
        (q & 0xffff) as u16
    }
}

/// A complete reading of the temperature sensor leaves the converter as it found it.
pub proof fn lemma_vtemp_read_restores(s: AdcState)
    ensures
        ({
            let begun = s.with_cfg(default_config()).with_vtemp(true);
            begun.with_cfg(s.cfg()).with_vtemp(s.vtemp_enabled && begun.vtemp_enabled) == s
        }),
{
}

/// A complete reading of the voltage reference leaves the converter as it found it.
pub proof fn lemma_vref_read_restores(s: AdcState)
    ensures
        ({
            let begun = s.with_cfg(default_config()).with_vref(true);
            begun.with_cfg(s.cfg()).with_vref(s.vref_enabled && begun.vref_enabled) == s
        }),
{
}

} // verus!
