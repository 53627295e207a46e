use pyrion::adc::config::{
    setup_registers, sample_time_slot, Config, DmaConfig, EndOfConversionSignal, GainCompensation,
    OversamplingRatio, OversamplingShift, Resolution,
};
use pyrion::adc::injected::{
    sequence_length_field, trigger_fields, AnyTriggerSource, ExternalTriggerConversionSourceADC12,
    ExternalTriggerConversionSourceADC345, TriggerADC12, TriggerADC345,
};
use pyrion::adc::regular;
use pyrion::adc::trigger_edge::ExternalTriggerEdge;

#[test]
fn gain_compensation() {
    assert_eq!(GainCompensation::zero().bits(), 0);
    assert_eq!(GainCompensation::from_bytes(0x3FFF).bits(), 0x3FFF);
    assert_eq!(GainCompensation::from_bytes(0x1234).register_fields(), (true, 0x1234));
    assert_eq!(GainCompensation::zero().register_fields(), (false, 0));
}

#[test]
fn end_of_conversion_interrupts() {
    assert_eq!(EndOfConversionSignal::Off.interrupt_enables(), (false, false));
    assert_eq!(EndOfConversionSignal::Single.interrupt_enables(), (false, true));
    assert_eq!(EndOfConversionSignal::Sequence.interrupt_enables(), (true, false));
    assert_eq!(EndOfConversionSignal::Both.interrupt_enables(), (true, true));
}

#[test]
fn oversampling_fields() {
    assert_eq!(OversamplingRatio::Ratio2.bits(), 0);
    assert_eq!(OversamplingRatio::Ratio256.bits(), 7);
    assert_eq!(OversamplingRatio::Ratio16.samples(), 16);
    assert_eq!(OversamplingShift::NoShift.bits(), 0);
    assert_eq!(OversamplingShift::Shift8.bits(), 8);
}

#[test]
fn default_config_registers() {
    let config = Config::default();
    let setup = setup_registers(&config);
    assert_eq!((setup.aden, setup.cont, setup.exten), (true, false, 0));
    assert_eq!(setup.resolution, Resolution::Bits12);
    assert_eq!((setup.eosie, setup.eocie, setup.jeosie, setup.jeocie), (false, false, false, false));
    assert_eq!((setup.gcomp, setup.gcompcoeff), (false, 0));
    assert_eq!(setup.dma_config, DmaConfig::OneShot);
    assert_eq!((setup.ovss, setup.ovsr, setup.rovse, setup.jovse), (0, 0, false, false));

    let mut config = Config::default();
    config.end_of_conversion_signal_injected = EndOfConversionSignal::Sequence;
    config.gain_compensation = GainCompensation::from_bytes(100);
    config.oversampling_config.ratio = OversamplingRatio::Ratio64;
    let setup = setup_registers(&config);
    assert_eq!((setup.jeosie, setup.jeocie), (true, false));
    assert_eq!((setup.gcomp, setup.gcompcoeff), (true, 100));
    assert_eq!(setup.ovsr, 5);
}

#[test]
fn injected_trigger_fields() {
    assert_eq!(trigger_fields(AnyTriggerSource::ADC12(TriggerADC12::Software)), (0, 0));
    assert_eq!(
        trigger_fields(AnyTriggerSource::ADC345(TriggerADC345::External(
            ExternalTriggerConversionSourceADC345::T1_TRGO,
            ExternalTriggerEdge::Rising
        ))),
        (1, 0)
    );
    assert_eq!(
        trigger_fields(AnyTriggerSource::ADC12(TriggerADC12::External(
            ExternalTriggerConversionSourceADC12::T7_TRGO,
            ExternalTriggerEdge::Both
        ))),
        (3, 30)
    );
    assert_eq!(ExternalTriggerConversionSourceADC12::T16_CC1.extsel(), 27);
    assert_eq!(ExternalTriggerConversionSourceADC345::LPTIM_OUT.extsel(), 29);
    assert_eq!(ExternalTriggerEdge::Falling.exten(), 2);
    assert_eq!(sequence_length_field(3), 3);
    assert_eq!(sequence_length_field(1), 1);
}

#[test]
fn channel_sample_time_slots() {
    assert_eq!(sample_time_slot(0), (false, 0));
    assert_eq!(sample_time_slot(9), (false, 9));
    assert_eq!(sample_time_slot(10), (true, 0));
    assert_eq!(sample_time_slot(18), (true, 8));
}

#[test]
fn regular_defaults() {
    let c = regular::Config::default_adc12();
    assert!(!c.enable_scan_conversion_mode && !c.enable_continuous_mode);
    assert_eq!(c.trigger, regular::TriggerADC12::Software);
    let c = regular::Config::default_adc345();
    assert_eq!(c.trigger, regular::TriggerADC345::Software);
}
