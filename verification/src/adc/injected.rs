use vstd::prelude::*;
use crate::adc::trigger_edge::{spec_exten, ExternalTriggerEdge, EXTEN_DISABLED};

verus! {

/// A trigger of the injected group.
pub trait Trigger {}

/// A channel count as a type.
pub struct ConstU<const N: usize>;

/// The channel counts the injected group supports: one to four.
pub trait Channels {}

impl Channels for ConstU<1> {}

impl Channels for ConstU<2> {}

impl Channels for ConstU<3> {}

impl Channels for ConstU<4> {}

/// How the injected group converts: once per request, or continuously.
pub trait ConversionMode {}

pub struct Single;

pub struct Continuous;

impl ConversionMode for Single {}

impl ConversionMode for Continuous {}

/// External trigger sources of the injected group of ADC1/ADC2.
#[allow(non_camel_case_types)]
#[derive(Debug, Clone, Copy, PartialEq, Eq, Structural)]
pub enum ExternalTriggerConversionSourceADC12 {
    T1_TRGO,
    T1_CC4,
    T2_TRGO,
    T2_CC1,
    T3_CC4,
    T4_TRGO,
    EXT_IT15,
    T8_CC4,
    T1_TRGO2,
    T8_TRGO,
    T8_TRGO2,
    T3_CC3,
    T3_TRGO,
    T3_CC1,
    T6_TRGO,
    T15_TRGO,
    T20_TRGO,
    T20_TRGO2,
    T20_CC4,
    HRTIM_ADC_TRG2,
    HRTIM_ADC_TRG4,
    HRTIM_ADC_TRG5,
    HRTIM_ADC_TRG6,
    HRTIM_ADC_TRG7,
    HRTIM_ADC_TRG8,
    HRTIM_ADC_TRG9,
    T16_CC1,
    T7_TRGO,
}

impl ExternalTriggerConversionSourceADC12 {
    /// The `JEXTSEL` field value of the source.
    pub open spec fn spec_extsel(self) -> u8 {
        match self {
            Self::T1_TRGO => 0,
            Self::T1_CC4 => 1,
            Self::T2_TRGO => 2,
            Self::T2_CC1 => 3,
            Self::T3_CC4 => 4,
            Self::T4_TRGO => 5,
            Self::EXT_IT15 => 6,
            Self::T8_CC4 => 7,
            Self::T1_TRGO2 => 8,
            Self::T8_TRGO => 9,
            Self::T8_TRGO2 => 10,
            Self::T3_CC3 => 11,
            Self::T3_TRGO => 12,
            Self::T3_CC1 => 13,
            Self::T6_TRGO => 14,
            Self::T15_TRGO => 15,
            Self::T20_TRGO => 16,
            Self::T20_TRGO2 => 17,
            Self::T20_CC4 => 18,
            Self::HRTIM_ADC_TRG2 => 19,
            Self::HRTIM_ADC_TRG4 => 20,
            Self::HRTIM_ADC_TRG5 => 21,
            Self::HRTIM_ADC_TRG6 => 22,
            Self::HRTIM_ADC_TRG7 => 23,
            Self::HRTIM_ADC_TRG8 => 24,
            Self::HRTIM_ADC_TRG9 => 25,
            Self::T16_CC1 => 27,
            Self::T7_TRGO => 30,
        }
    }

    /// The `JEXTSEL` field value of the source.
    pub fn extsel(self) -> (r: u8)
        ensures
            r == self.spec_extsel(),
    {
        match self {
            Self::T1_TRGO => 0,
            Self::T1_CC4 => 1,
            Self::T2_TRGO => 2,
            Self::T2_CC1 => 3,
            Self::T3_CC4 => 4,
            Self::T4_TRGO => 5,
            Self::EXT_IT15 => 6,
            Self::T8_CC4 => 7,
            Self::T1_TRGO2 => 8,
            Self::T8_TRGO => 9,
            Self::T8_TRGO2 => 10,
            Self::T3_CC3 => 11,
            Self::T3_TRGO => 12,
            Self::T3_CC1 => 13,
            Self::T6_TRGO => 14,
            Self::T15_TRGO => 15,
            Self::T20_TRGO => 16,
            Self::T20_TRGO2 => 17,
            Self::T20_CC4 => 18,
            Self::HRTIM_ADC_TRG2 => 19,
            Self::HRTIM_ADC_TRG4 => 20,
            Self::HRTIM_ADC_TRG5 => 21,
            Self::HRTIM_ADC_TRG6 => 22,
            Self::HRTIM_ADC_TRG7 => 23,
            Self::HRTIM_ADC_TRG8 => 24,
            Self::HRTIM_ADC_TRG9 => 25,
            Self::T16_CC1 => 27,
            Self::T7_TRGO => 30,
        }
    }
}

/// External trigger sources of the injected group of ADC3/ADC4/ADC5.
#[allow(non_camel_case_types)]
#[derive(Debug, Clone, Copy, PartialEq, Eq, Structural)]
pub enum ExternalTriggerConversionSourceADC345 {
    T1_TRGO,
    T1_CC4,
    T2_TRGO,
    T8_CC2,
    T4_CC3,
    T4_TRGO,
    T4_CC4,
    T8_CC4,
    T1_TRGO2,
    T8_TRGO,
    T8_TRGO2,
    T1_CC3,
    T3_TRGO,
    EXT_IT3,
    T6_TRGO,
    T15_TRGO,
    T20_TRGO,
    T20_TRGO2,
    T20_CC2,
    HRTIM_ADC_TRG2,
    HRTIM_ADC_TRG4,
    HRTIM_ADC_TRG5,
    HRTIM_ADC_TRG6,
    HRTIM_ADC_TRG7,
    HRTIM_ADC_TRG8,
    HRTIM_ADC_TRG9,
    HRTIM_ADC_TRG1,
    HRTIM_ADC_TRG3,
    LPTIM_OUT,
    T7_TRGO,
}

impl ExternalTriggerConversionSourceADC345 {
    /// The `JEXTSEL` field value of the source.
    pub open spec fn spec_extsel(self) -> u8 {
        match self {
            Self::T1_TRGO => 0,
            Self::T1_CC4 => 1,
            Self::T2_TRGO => 2,
            Self::T8_CC2 => 3,
            Self::T4_CC3 => 4,
            Self::T4_TRGO => 5,
            Self::T4_CC4 => 6,
            Self::T8_CC4 => 7,
            Self::T1_TRGO2 => 8,
            Self::T8_TRGO => 9,
            Self::T8_TRGO2 => 10,
            Self::T1_CC3 => 11,
            Self::T3_TRGO => 12,
            Self::EXT_IT3 => 13,
            Self::T6_TRGO => 14,
            Self::T15_TRGO => 15,
            Self::T20_TRGO => 16,
            Self::T20_TRGO2 => 17,
            Self::T20_CC2 => 18,
            Self::HRTIM_ADC_TRG2 => 19,
            Self::HRTIM_ADC_TRG4 => 20,
            Self::HRTIM_ADC_TRG5 => 21,
            Self::HRTIM_ADC_TRG6 => 22,
            Self::HRTIM_ADC_TRG7 => 23,
            Self::HRTIM_ADC_TRG8 => 24,
            Self::HRTIM_ADC_TRG9 => 25,
            Self::HRTIM_ADC_TRG1 => 27,
            Self::HRTIM_ADC_TRG3 => 28,
            Self::LPTIM_OUT => 29,
            Self::T7_TRGO => 30,
        }
    }

    /// The `JEXTSEL` field value of the source.
    pub fn extsel(self) -> (r: u8)
        ensures
            r == self.spec_extsel(),
    {
        match self {
            Self::T1_TRGO => 0,
            Self::T1_CC4 => 1,
            Self::T2_TRGO => 2,
            Self::T8_CC2 => 3,
            Self::T4_CC3 => 4,
            Self::T4_TRGO => 5,
            Self::T4_CC4 => 6,
            Self::T8_CC4 => 7,
            Self::T1_TRGO2 => 8,
            Self::T8_TRGO => 9,
            Self::T8_TRGO2 => 10,
            Self::T1_CC3 => 11,
            Self::T3_TRGO => 12,
            Self::EXT_IT3 => 13,
            Self::T6_TRGO => 14,
            Self::T15_TRGO => 15,
            Self::T20_TRGO => 16,
            Self::T20_TRGO2 => 17,
            Self::T20_CC2 => 18,
            Self::HRTIM_ADC_TRG2 => 19,
            Self::HRTIM_ADC_TRG4 => 20,
            Self::HRTIM_ADC_TRG5 => 21,
            Self::HRTIM_ADC_TRG6 => 22,
            Self::HRTIM_ADC_TRG7 => 23,
            Self::HRTIM_ADC_TRG8 => 24,
            Self::HRTIM_ADC_TRG9 => 25,
            Self::HRTIM_ADC_TRG1 => 27,
            Self::HRTIM_ADC_TRG3 => 28,
            Self::LPTIM_OUT => 29,
            Self::T7_TRGO => 30,
        }
    }
}

/// Different sources select different `JEXTSEL` values, all within the
/// five-bit field.
pub proof fn lemma_extsel_distinct_adc12(
    a: ExternalTriggerConversionSourceADC12,
    b: ExternalTriggerConversionSourceADC12,
)
    ensures
        a.spec_extsel() <= 30,
        a != b ==> a.spec_extsel() != b.spec_extsel(),
{
}

/// The `JEXTSEL` code of an ADC1/ADC2 source is its position in the
/// reference manual's list of injected trigger sources, which the enum
/// follows: the codes grow with the position, the first 26 sources have
/// codes 0 to 25, the last two (`T16_CC1`, `T7_TRGO`) codes 27 and 30, and
/// codes 26, 28 and 29 select no source.
pub proof fn lemma_extsel_is_manual_code_adc12(
    a: ExternalTriggerConversionSourceADC12,
    b: ExternalTriggerConversionSourceADC12,
)
    ensures
        (a as u8) < (b as u8) ==> a.spec_extsel() < b.spec_extsel(),
        (a as u8) < 26 ==> a.spec_extsel() == a as u8,
        (a as u8) == 26 ==> a.spec_extsel() == 27,
        (a as u8) == 27 ==> a.spec_extsel() == 30,
        a.spec_extsel() != 26 && a.spec_extsel() != 28 && a.spec_extsel() != 29,
{
}

/// Different sources select different `JEXTSEL` values, all within the
/// five-bit field.
pub proof fn lemma_extsel_distinct_adc345(
    a: ExternalTriggerConversionSourceADC345,
    b: ExternalTriggerConversionSourceADC345,
)
    ensures
        a.spec_extsel() <= 30,
        a != b ==> a.spec_extsel() != b.spec_extsel(),
{
}

/// The `JEXTSEL` code of an ADC3/ADC4/ADC5 source is its position in the
/// reference manual's list of injected trigger sources, which the enum
/// follows: the codes grow with the position, the first 26 sources have
/// codes 0 to 25 and the other four the codes after the unused code 26.
pub proof fn lemma_extsel_is_manual_code_adc345(
    a: ExternalTriggerConversionSourceADC345,
    b: ExternalTriggerConversionSourceADC345,
)
    ensures
        (a as u8) < (b as u8) ==> a.spec_extsel() < b.spec_extsel(),
        (a as u8) < 26 ==> a.spec_extsel() == a as u8,
        (a as u8) >= 26 ==> a.spec_extsel() == a as u8 + 1,
        a.spec_extsel() != 26,
{
}

/// The trigger of the injected group of ADC1/ADC2.
#[derive(Debug, Clone, Copy, PartialEq, Eq, Structural)]
pub enum TriggerADC12 {
    Software,
    External(ExternalTriggerConversionSourceADC12, ExternalTriggerEdge),
}

/// The trigger of the injected group of ADC3/ADC4/ADC5.
#[derive(Debug, Clone, Copy, PartialEq, Eq, Structural)]
pub enum TriggerADC345 {
    Software,
    External(ExternalTriggerConversionSourceADC345, ExternalTriggerEdge),
}

impl Trigger for TriggerADC12 {}

impl Trigger for TriggerADC345 {}

/// A trigger of either ADC family.
#[derive(Debug, Clone, Copy, PartialEq, Eq, Structural)]
pub enum AnyTriggerSource {
    ADC12(TriggerADC12),
    ADC345(TriggerADC345),
}

/// The `JEXTEN` and `JEXTSEL` fields that select a trigger: a software trigger
/// disables the external trigger and clears the source; an external one sets
/// its edge and its source.
pub fn trigger_fields(trigger: AnyTriggerSource) -> (r: (u8, u8))
    ensures
        match trigger {
            AnyTriggerSource::ADC12(TriggerADC12::Software) => r == (EXTEN_DISABLED, 0u8),
            AnyTriggerSource::ADC345(TriggerADC345::Software) => r == (EXTEN_DISABLED, 0u8),
            AnyTriggerSource::ADC12(TriggerADC12::External(source, edge)) => r == (
                spec_exten(edge),
                source.spec_extsel(),
            ),
            AnyTriggerSource::ADC345(TriggerADC345::External(source, edge)) => r == (
                spec_exten(edge),
                source.spec_extsel(),
            ),
        },
{
    match trigger {
        AnyTriggerSource::ADC12(TriggerADC12::Software) => (EXTEN_DISABLED, 0),
        AnyTriggerSource::ADC345(TriggerADC345::Software) => (EXTEN_DISABLED, 0),
        AnyTriggerSource::ADC12(TriggerADC12::External(source, edge)) => (edge.exten(), source.extsel()),
        AnyTriggerSource::ADC345(TriggerADC345::External(source, edge)) => (
            edge.exten(),
            source.extsel(),
        ),
    }
}

/// The value written to the `JL` field when a sequence of `channels`
/// conversions is started: the channel count itself. The injected group
/// holds one to four conversions.
pub fn sequence_length_field(channels: usize) -> (r: u8)
    requires
        1 <= channels <= 4,
    ensures
        r == channels,
{
    channels as u8
}

} // verus!
