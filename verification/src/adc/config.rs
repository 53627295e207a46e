use vstd::prelude::*;
use crate::adc::trigger_edge::EXTEN_DISABLED;

verus! {

/// Marker of an ADC part (injected or regular group) that is still available.
pub struct Free;

/// Marker of an ADC part (injected or regular group) that has been configured.
pub struct Taken;

/// The ADCs that share the trigger tables of ADC1/ADC2.
pub struct Family12;

/// The ADCs that share the trigger tables of ADC3/ADC4/ADC5.
pub struct Family345;

/// A family of ADC instances, which fixes the external trigger sources of its
/// injected group.
pub trait AdcFamily {
    type InjectedExtTrigger;
}

impl AdcFamily for Family12 {
    type InjectedExtTrigger = crate::adc::injected::ExternalTriggerConversionSourceADC12;
}

impl AdcFamily for Family345 {
    type InjectedExtTrigger = crate::adc::injected::ExternalTriggerConversionSourceADC345;
}

/// An ADC instance and its family.
pub trait AdcInstance {
    type Family: AdcFamily;
}

/// An instance of ADC1 or ADC2.
pub trait Adc12Instance {}

/// An instance of ADC3, ADC4 or ADC5.
pub trait Adc345Instance {}

/// Largest gain compensation coefficient (`0x3FFF`, a gain just below 4).
pub const GAIN_COMPENSATION_MAX: u16 = 0x3FFF;

/// The gain compensation coefficient of the ADC.
#[derive(Debug, Clone, Copy, PartialEq, Eq, Structural)]
pub struct GainCompensation(u16);

impl GainCompensation {
    pub closed spec fn coefficient(self) -> u16 {
        self.0
    }

    /// A coefficient from its raw register value, which must be at most
    /// `0x3FFF` (a larger value stops the program).
    pub fn from_bytes(val: u16) -> (r: Self)
        requires
            val <= GAIN_COMPENSATION_MAX,
        ensures
            r.coefficient() == val,
    {
        GainCompensation(val)
    }

    /// No gain compensation.
    pub fn zero() -> (r: Self)
        ensures
            r.coefficient() == 0,
    {
        Self::from_bytes(0)
    }

    /// The raw register value.
    pub fn bits(&self) -> (r: u16)
        ensures
            r == self.coefficient(),
            r <= GAIN_COMPENSATION_MAX,
    {
        proof {
            use_type_invariant(self);
        }
        self.0
    }

    #[verifier::type_invariant]
    spec fn inv(self) -> bool {
        self.0 <= GAIN_COMPENSATION_MAX
    }

    /// The `GCOMP` enable bit and the `GCOMPCOEFF` field: compensation is on
    /// exactly when the coefficient is not zero.
    pub fn register_fields(&self) -> (r: (bool, u16))
        ensures
            r.0 == (self.coefficient() != 0),
            r.1 == self.coefficient(),
    {
        (self.0 != 0, self.0)
    }
}

/// Which end-of-conversion interrupts are raised.
#[derive(Debug, Clone, Copy, PartialEq, Eq, Structural)]
pub enum EndOfConversionSignal {
    Off,
    Single,
    Sequence,
    Both,
}

impl EndOfConversionSignal {
    /// The end-of-sequence and end-of-conversion interrupt enables (`EOSIE`,
    /// `EOCIE`, or `JEOSIE`, `JEOCIE` for the injected group).
    pub fn interrupt_enables(self) -> (r: (bool, bool))
        ensures
            r.0 == (self == EndOfConversionSignal::Sequence || self == EndOfConversionSignal::Both),
            r.1 == (self == EndOfConversionSignal::Single || self == EndOfConversionSignal::Both),
    {
        match self {
            EndOfConversionSignal::Off => (false, false),
            EndOfConversionSignal::Single => (false, true),
            EndOfConversionSignal::Sequence => (true, false),
            EndOfConversionSignal::Both => (true, true),
        }
    }
}

/// How many samples are accumulated by oversampling.
#[derive(Debug, Clone, Copy, PartialEq, Eq, Structural)]
pub enum OversamplingRatio {
    Ratio2,
    Ratio4,
    Ratio8,
    Ratio16,
    Ratio32,
    Ratio64,
    Ratio128,
    Ratio256,
}

pub open spec fn pow2(n: nat) -> nat
    decreases n,
{
    if n == 0 {
        1
    } else {
        2 * pow2((n - 1) as nat)
    }
}

impl OversamplingRatio {
    pub open spec fn spec_bits(self) -> u8 {
        match self {
            OversamplingRatio::Ratio2 => 0,
            OversamplingRatio::Ratio4 => 1,
            OversamplingRatio::Ratio8 => 2,
            OversamplingRatio::Ratio16 => 3,
            OversamplingRatio::Ratio32 => 4,
            OversamplingRatio::Ratio64 => 5,
            OversamplingRatio::Ratio128 => 6,
            OversamplingRatio::Ratio256 => 7,
        }
    }

    /// The `OVSR` field value.
    pub fn bits(self) -> (r: u8)
        ensures
            r == self.spec_bits(),
    {
        match self {
            OversamplingRatio::Ratio2 => 0,
            OversamplingRatio::Ratio4 => 1,
            OversamplingRatio::Ratio8 => 2,
            OversamplingRatio::Ratio16 => 3,
            OversamplingRatio::Ratio32 => 4,
            OversamplingRatio::Ratio64 => 5,
            OversamplingRatio::Ratio128 => 6,
            OversamplingRatio::Ratio256 => 7,
        }
    }

    /// The number of samples: `2^(OVSR + 1)`.
    pub fn samples(self) -> (r: u16)
        ensures
            r == pow2((self.spec_bits() + 1) as nat),
    {
        proof {
            reveal_with_fuel(pow2, 9);
        }
        match self {
            OversamplingRatio::Ratio2 => 2,
            OversamplingRatio::Ratio4 => 4,
            OversamplingRatio::Ratio8 => 8,
            OversamplingRatio::Ratio16 => 16,
            OversamplingRatio::Ratio32 => 32,
            OversamplingRatio::Ratio64 => 64,
            OversamplingRatio::Ratio128 => 128,
            OversamplingRatio::Ratio256 => 256,
        }
    }
}

/// The field codes of the oversampling settings are their positions in the
/// reference manual's lists, which the enums follow: ratio `2^(k+1)` has code
/// `k`, and a shift by `k` bits has code `k`.
pub proof fn lemma_oversampling_codes(ratio: OversamplingRatio, shift: OversamplingShift)
    ensures
        ratio.spec_bits() == ratio as u8,
        shift.spec_bits() == shift as u8,
        ratio.spec_bits() <= 7,
        shift.spec_bits() <= 8,
{
}

/// How far the accumulated oversampling result is shifted right.
#[derive(Debug, Clone, Copy, PartialEq, Eq, Structural)]
pub enum OversamplingShift {
    NoShift,
    Shift1,
    Shift2,
    Shift3,
    Shift4,
    Shift5,
    Shift6,
    Shift7,
    Shift8,
}

impl OversamplingShift {
    pub open spec fn spec_bits(self) -> u8 {
        match self {
            OversamplingShift::NoShift => 0,
            OversamplingShift::Shift1 => 1,
            OversamplingShift::Shift2 => 2,
            OversamplingShift::Shift3 => 3,
            OversamplingShift::Shift4 => 4,
            OversamplingShift::Shift5 => 5,
            OversamplingShift::Shift6 => 6,
            OversamplingShift::Shift7 => 7,
            OversamplingShift::Shift8 => 8,
        }
    }

    /// The `OVSS` field value: the number of bits shifted.
    pub fn bits(self) -> (r: u8)
        ensures
            r == self.spec_bits(),
    {
        match self {
            OversamplingShift::NoShift => 0,
            OversamplingShift::Shift1 => 1,
            OversamplingShift::Shift2 => 2,
            OversamplingShift::Shift3 => 3,
            OversamplingShift::Shift4 => 4,
            OversamplingShift::Shift5 => 5,
            OversamplingShift::Shift6 => 6,
            OversamplingShift::Shift7 => 7,
            OversamplingShift::Shift8 => 8,
        }
    }
}

/// Conversion resolution.
#[derive(Debug, Clone, Copy, PartialEq, Eq, Structural)]
pub enum Resolution {
    Bits12,
    Bits10,
    Bits8,
    Bits6,
}

/// How the DMA requests follow the conversions.
#[derive(Debug, Clone, Copy, PartialEq, Eq, Structural)]
pub enum DmaConfig {
    OneShot,
    Circular,
}

/// What happens to unread data when a new conversion ends.
#[derive(Debug, Clone, Copy, PartialEq, Eq, Structural)]
pub enum OverrunMode {
    Preserve,
    Overwrite,
}

/// Regular oversampling mode when it is interrupted by an injected conversion.
#[derive(Debug, Clone, Copy, PartialEq, Eq, Structural)]
pub enum RegularOversamplingMode {
    Continued,
    Resumed,
}

/// Whether triggered oversampling needs a trigger per sample.
#[derive(Debug, Clone, Copy, PartialEq, Eq, Structural)]
pub enum TriggeredOversampling {
    Automatic,
    Triggered,
}

#[derive(Debug, Clone, Copy, PartialEq, Eq, Structural)]
pub struct OversamplingConfig {
    pub shift: OversamplingShift,
    pub ratio: OversamplingRatio,
    pub regular_mode: RegularOversamplingMode,
    pub triggered_mode: TriggeredOversampling,
    pub enable_injected_oversampling: bool,
    pub enable_regular_oversampling: bool,
}

impl Default for OversamplingConfig {
    /// No shift, ratio two, continued and automatic modes, oversampling off.
    fn default() -> (r: Self)
        ensures
            r.shift == OversamplingShift::NoShift,
            r.ratio == OversamplingRatio::Ratio2,
            r.regular_mode == RegularOversamplingMode::Continued,
            r.triggered_mode == TriggeredOversampling::Automatic,
            !r.enable_injected_oversampling,
            !r.enable_regular_oversampling,
    {
        OversamplingConfig {
            shift: OversamplingShift::NoShift,
            ratio: OversamplingRatio::Ratio2,
            regular_mode: RegularOversamplingMode::Continued,
            triggered_mode: TriggeredOversampling::Automatic,
            enable_injected_oversampling: false,
            enable_regular_oversampling: false,
        }
    }
}

/// The configuration of an ADC.
#[derive(Debug, Clone, Copy)]
pub struct Config {
    pub resolution: Resolution,
    pub align_left: bool,
    pub gain_compensation: GainCompensation,
    pub end_of_conversion_signal_regular: EndOfConversionSignal,
    pub end_of_conversion_signal_injected: EndOfConversionSignal,
    pub dma_config: DmaConfig,
    pub overrun_mode: OverrunMode,
    pub oversampling_config: OversamplingConfig,
    pub enable_low_power_auto_wait: bool,
}

impl Default for Config {
    /// 12 bits, right aligned, no gain compensation, no end-of-conversion
    /// interrupts, one-shot DMA, data preserved on overrun, default
    /// oversampling, no auto-wait.
    fn default() -> (r: Self)
        ensures
            r.resolution == Resolution::Bits12,
            !r.align_left,
            r.gain_compensation.coefficient() == 0,
            r.end_of_conversion_signal_regular == EndOfConversionSignal::Off,
            r.end_of_conversion_signal_injected == EndOfConversionSignal::Off,
            r.dma_config == DmaConfig::OneShot,
            r.overrun_mode == OverrunMode::Preserve,
            r.oversampling_config.shift == OversamplingShift::NoShift,
            r.oversampling_config.ratio == OversamplingRatio::Ratio2,
            r.oversampling_config.regular_mode == RegularOversamplingMode::Continued,
            r.oversampling_config.triggered_mode == TriggeredOversampling::Automatic,
            !r.oversampling_config.enable_injected_oversampling,
            !r.oversampling_config.enable_regular_oversampling,
            !r.enable_low_power_auto_wait,
    {
        Config {
            resolution: Resolution::Bits12,
            align_left: false,
            gain_compensation: GainCompensation::zero(),
            end_of_conversion_signal_regular: EndOfConversionSignal::Off,
            end_of_conversion_signal_injected: EndOfConversionSignal::Off,
            dma_config: DmaConfig::OneShot,
            overrun_mode: OverrunMode::Preserve,
            oversampling_config: OversamplingConfig::default(),
            enable_low_power_auto_wait: false,
        }
    }
}

/// The register fields that bringing up an ADC writes for a configuration.
/// Besides the configured fields, bring-up always enables the ADC (`ADEN`)
/// and selects single conversions started by software (`CONT` off, `EXTEN`
/// disabled).
#[derive(Debug, Clone, Copy, PartialEq, Eq, Structural)]
pub struct AdcSetup {
    pub aden: bool,
    pub cont: bool,
    pub exten: u8,
    pub resolution: Resolution,
    pub eosie: bool,
    pub eocie: bool,
    pub jeosie: bool,
    pub jeocie: bool,
    pub align_left: bool,
    pub gcomp: bool,
    pub gcompcoeff: u16,
    pub autdly: bool,
    pub dma_config: DmaConfig,
    pub overrun_mode: OverrunMode,
    pub ovss: u8,
    pub ovsr: u8,
    pub regular_mode: RegularOversamplingMode,
    pub triggered_mode: TriggeredOversampling,
    pub rovse: bool,
    pub jovse: bool,
}

/// The register fields for bringing up an ADC with `config`.
pub fn setup_registers(config: &Config) -> (r: AdcSetup)
    ensures
        r.aden,
        !r.cont,
        r.exten == EXTEN_DISABLED,
        r.resolution == config.resolution,
        r.eosie == (config.end_of_conversion_signal_regular == EndOfConversionSignal::Sequence
            || config.end_of_conversion_signal_regular == EndOfConversionSignal::Both),
        r.eocie == (config.end_of_conversion_signal_regular == EndOfConversionSignal::Single
            || config.end_of_conversion_signal_regular == EndOfConversionSignal::Both),
        r.jeosie == (config.end_of_conversion_signal_injected == EndOfConversionSignal::Sequence
            || config.end_of_conversion_signal_injected == EndOfConversionSignal::Both),
        r.jeocie == (config.end_of_conversion_signal_injected == EndOfConversionSignal::Single
            || config.end_of_conversion_signal_injected == EndOfConversionSignal::Both),
        r.align_left == config.align_left,
        r.gcomp == (config.gain_compensation.coefficient() != 0),
        r.gcompcoeff == config.gain_compensation.coefficient(),
        r.autdly == config.enable_low_power_auto_wait,
        r.dma_config == config.dma_config,
        r.overrun_mode == config.overrun_mode,
        r.ovss == config.oversampling_config.shift.spec_bits(),
        r.ovsr == config.oversampling_config.ratio.spec_bits(),
        r.regular_mode == config.oversampling_config.regular_mode,
        r.triggered_mode == config.oversampling_config.triggered_mode,
        r.rovse == config.oversampling_config.enable_regular_oversampling,
        r.jovse == config.oversampling_config.enable_injected_oversampling,
{
    let (eosie, eocie) = config.end_of_conversion_signal_regular.interrupt_enables();
    let (jeosie, jeocie) = config.end_of_conversion_signal_injected.interrupt_enables();
    let (gcomp, gcompcoeff) = config.gain_compensation.register_fields();
    AdcSetup {
        aden: true,
        cont: false,
        exten: EXTEN_DISABLED,
        resolution: config.resolution,
        eosie,
        eocie,
        jeosie,
        jeocie,
        align_left: config.align_left,
        gcomp,
        gcompcoeff,
        autdly: config.enable_low_power_auto_wait,
        dma_config: config.dma_config,
        overrun_mode: config.overrun_mode,
        ovss: config.oversampling_config.shift.bits(),
        ovsr: config.oversampling_config.ratio.bits(),
        regular_mode: config.oversampling_config.regular_mode,
        triggered_mode: config.oversampling_config.triggered_mode,
        rovse: config.oversampling_config.enable_regular_oversampling,
        jovse: config.oversampling_config.enable_injected_oversampling,
    }
}

/// The sample-time register of a channel and the slot in it: channels 0 to 9
/// are in `SMPR1`, the others in `SMPR2` from slot 0 on.
pub fn sample_time_slot(channel: u8) -> (r: (bool, usize))
    ensures
        channel <= 9 ==> r.0 == false && r.1 == channel,
        channel > 9 ==> r.0 == true && r.1 == channel - 10,
{
    if channel <= 9 {
        (false, channel as usize)
    } else {
        (true, (channel - 10) as usize)
    }
}

} // verus!
