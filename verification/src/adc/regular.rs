use vstd::prelude::*;
use crate::adc::trigger_edge::ExternalTriggerEdge;

verus! {

/// A trigger of the regular group.
pub trait Trigger {}

/// External trigger sources of the regular group of ADC1/ADC2.
#[allow(non_camel_case_types)]
#[derive(Debug, Clone, Copy, PartialEq, Eq, Structural)]
pub enum ExternalTriggerConversionSourceADC12 {
    T1_CC1,
    T1_CC2,
    T1_CC3,
    T2_CC2,
    T3_TRGO,
    T4_CC4,
    EXT_IT11,
    T8_TRGO,
    T8_TRGO2,
    T1_TRGO,
    T1_TRGO2,
    T2_TRGO,
    T4_TRGO,
    T6_TRGO,
    T15_TRGO,
    T3_CC4,
    T20_TRGO,
    T20_TRGO2,
    T20_CC1,
    T20_CC2,
    T20_CC3,
    HRTIM_ADC_TRG1,
    HRTIM_ADC_TRG3,
    HRTIM_ADC_TRG5,
    HRTIM_ADC_TRG6,
    HRTIM_ADC_TRG7,
    HRTIM_ADC_TRG8,
    HRTIM_ADC_TRG9,
    HRTIM_ADC_TRG10,
    LPTIM_OUT,
    T7_TRGO,
}

/// External trigger sources of the regular group of ADC3/ADC4/ADC5.
#[allow(non_camel_case_types)]
#[derive(Debug, Clone, Copy, PartialEq, Eq, Structural)]
pub enum ExternalTriggerConversionSourceADC345 {
    T3_CC1,
    T2_CC3,
    T1_CC3,
    T8_CC1,
    T3_TRGO,
    EXT_IT2,
    T4_CC1,
    T8_TRGO,
    T8_TRGO2,
    T1_TRGO,
    T1_TRGO2,
    T2_TRGO,
    T4_TRGO,
    T6_TRGO,
    T15_TRGO,
    T2_CC1,
    T20_TRGO,
    T20_TRGO2,
    T20_CC1,
    HRTIM_ADC_TRG2,
    HRTIM_ADC_TRG4,
    HRTIM_ADC_TRG1,
    HRTIM_ADC_TRG3,
    HRTIM_ADC_TRG5,
    HRTIM_ADC_TRG6,
    HRTIM_ADC_TRG7,
    HRTIM_ADC_TRG8,
    HRTIM_ADC_TRG9,
    HRTIM_ADC_TRG10,
    LPTIM_OUT,
    T7_TRGO,
}

/// The trigger of the regular group of ADC1/ADC2.
#[derive(Debug, Clone, Copy, PartialEq, Eq, Structural)]
pub enum TriggerADC12 {
    Software,
    External(ExternalTriggerConversionSourceADC12, ExternalTriggerEdge),
}

/// The trigger of the regular group of ADC3/ADC4/ADC5.
#[derive(Debug, Clone, Copy, PartialEq, Eq, Structural)]
pub enum TriggerADC345 {
    Software,
    External(ExternalTriggerConversionSourceADC345, ExternalTriggerEdge),
}

impl Trigger for TriggerADC12 {}

impl Trigger for TriggerADC345 {}

/// The configuration of the regular group.
#[derive(Debug, Clone, Copy, PartialEq, Eq, Structural)]
pub struct Config<T> {
    pub enable_scan_conversion_mode: bool,
    pub enable_continuous_mode: bool,
    pub enable_discontinuous_mode: bool,
    pub trigger: T,
}

impl Config<TriggerADC12> {
    /// Scan, continuous and discontinuous modes off, software trigger.
    pub fn default_adc12() -> (r: Self)
        ensures
            !r.enable_scan_conversion_mode,
            !r.enable_continuous_mode,
            !r.enable_discontinuous_mode,
            r.trigger == TriggerADC12::Software,
    {
        Config {
            enable_scan_conversion_mode: false,
            enable_continuous_mode: false,
            enable_discontinuous_mode: false,
            trigger: TriggerADC12::Software,
        }
    }
}

impl Config<TriggerADC345> {
    /// Scan, continuous and discontinuous modes off, software trigger.
    pub fn default_adc345() -> (r: Self)
        ensures
            !r.enable_scan_conversion_mode,
            !r.enable_continuous_mode,
            !r.enable_discontinuous_mode,
            r.trigger == TriggerADC345::Software,
    {
        Config {
            enable_scan_conversion_mode: false,
            enable_continuous_mode: false,
            enable_discontinuous_mode: false,
            trigger: TriggerADC345::Software,
        }
    }
}

} // verus!
