use rust_embedded::adc::{AdcInstance, AdcOptions, AdcSampleBuffer, AdcTrait, AdcTriggerSource};
use rust_embedded::dma::DmaRequest;
use rust_embedded::esc1_discovery::{initialize, tim1_dead_time};
use rust_embedded::fake_adc::Adc;
use rust_embedded::fake_dma::Dma;
use rust_embedded::motor_control::{
    apply_duty_cycles, bring_up, current_loop_cycle, duty_cycles_or_zero, retrieve_conversions,
    Fault, Firmware, ENCODER_COUNTS, OPAMP1_CHANNEL, POTENTIOMETER_CHANNEL, PWM_CHANNELS,
    PWM_FREQUENCY_HZ, OPAMP2_CHANNEL, OPAMP3_CHANNEL, VBUS_CHANNEL,
};
use rust_embedded::pwm::{PwmOptions, PwmTimer, PwmTrait};
use rust_embedded::fake_pwm::Pwm;
use rust_embedded::unit_interval::UnitInterval;

fn buffer() -> &'static AdcSampleBuffer {
    Box::leak(Box::new(AdcSampleBuffer::new()))
}

/// The ADC driver the board does not create, for `bring_up` to open.
fn new_adc2() -> Adc {
    Adc::new(AdcInstance::Stm32g4Adc2, DmaRequest::Stm32g4DmamuxReqAdc2)
}

/// An ADC opened by hand on the same TRGO2 edge as ADC1.
fn second_adc() -> Adc {
    let mut adc = Adc::new(AdcInstance::Stm32g4Adc2, DmaRequest::Stm32g4DmamuxReqAdc2);
    adc.open(
        AdcOptions::new(&[16, 18, 1], buffer(), AdcTriggerSource::Stm32g4Tim1TriggerOut2Rising),
        &Dma::new(),
    );
    adc
}

fn sample(value: u16) -> UnitInterval {
    UnitInterval::new((value as u32) << 16)
}

#[test]
fn opens_adc1_adc2_and_pwm_with_the_expected_options() {
    let samples = buffer();
    let samples2 = buffer();
    let (_firmware, _clock, adc1, adc2, pwm1, mut quadrature, _gpio) =
        bring_up(initialize(()), samples, new_adc2(), samples2);

    assert_eq!(
        adc1.fake().options(),
        Some(AdcOptions::new(
            &[OPAMP1_CHANNEL, POTENTIOMETER_CHANNEL],
            samples,
            AdcTriggerSource::Stm32g4Tim1TriggerOut2Rising,
        ))
    );
    assert_eq!(
        adc2.fake().options(),
        Some(AdcOptions::new(
            &[OPAMP2_CHANNEL, OPAMP3_CHANNEL, VBUS_CHANNEL],
            samples2,
            AdcTriggerSource::Stm32g4Tim1TriggerOut2Rising,
        ))
    );
    assert_eq!(
        pwm1.fake().options(),
        Some(PwmOptions::new(PWM_FREQUENCY_HZ, PWM_CHANNELS, tim1_dead_time(), true))
    );
    // Open over ENCODER_COUNTS counts: half of them is half a turn.
    quadrature.fake_mut().move_by(ENCODER_COUNTS as i32 / 2);
    assert_eq!(quadrature.fake().position(), UnitInterval::new(1 << 31));
}

#[test]
fn bring_up_uses_the_board_constants() {
    assert_eq!(OPAMP1_CHANNEL, 13);
    assert_eq!(POTENTIOMETER_CHANNEL, 11);
    assert_eq!(PWM_FREQUENCY_HZ, 20_000);
    assert_eq!(PWM_CHANNELS, 3);
    assert_eq!(ENCODER_COUNTS, 128);
    assert_eq!([OPAMP2_CHANNEL, OPAMP3_CHANNEL, VBUS_CHANNEL], [16, 18, 1]);
}

#[test]
fn adc_isr_runs_after_open_without_a_prior_trigger_call() {
    let (_firmware, _clock, mut adc1, mut adc2, mut pwm1, _quadrature, _gpio) =
        bring_up(initialize(()), buffer(), new_adc2(), buffer());

    // Both ADCs are armed by open() on a hardware trigger source: no
    // trigger() call is needed. Simulate the shared TRGO2 wire asserting.
    adc1.fake_mut().set_sample(0, sample(u16::MAX));
    adc1.fake_mut().assert_trigger_wire();
    adc2.fake_mut().assert_trigger_wire();

    let (fault, run) = retrieve_conversions(&mut adc1, &mut adc2, Fault::NoFault);
    assert_eq!(fault, Fault::NoFault);
    assert!(run);
    assert_eq!(adc1.get_sample(0), sample(u16::MAX));
    apply_duty_cycles(&mut pwm1, None);
    for channel in 0..3 {
        assert_eq!(pwm1.fake().duty_cycle(channel), UnitInterval::new(0));
    }
}

#[test]
fn an_incomplete_adc1_conversion_reports_a_fault_that_idle_drains_into_firmware() {
    let (mut firmware, _clock, mut adc1, mut adc2, _pwm1, _quadrature, _gpio) =
        bring_up(initialize(()), buffer(), new_adc2(), buffer());
    let mut pending_fault = Fault::NoFault;

    // Only the second ADC's conversion completes.
    adc2.fake_mut().assert_trigger_wire();
    let (fault, run) = retrieve_conversions(&mut adc1, &mut adc2, pending_fault);
    pending_fault = fault;
    assert!(run);

    // Not folded into the firmware's fault until the main loop drains it.
    assert_eq!(pending_fault, Fault::AdcConversionIncomplete);
    assert_eq!(firmware.fault(), Fault::NoFault);

    firmware.report_fault(pending_fault);
    pending_fault = Fault::NoFault;
    assert_eq!(firmware.fault(), Fault::AdcConversionIncomplete);
    assert_eq!(pending_fault, Fault::NoFault);
}

#[test]
fn current_loop_cycle_reports_an_unfinished_first_sequence() {
    assert_eq!(current_loop_cycle(true, true, Fault::NoFault), (Fault::NoFault, true));
    assert_eq!(current_loop_cycle(true, false, Fault::NoFault), (Fault::NoFault, false));
    assert_eq!(
        current_loop_cycle(false, true, Fault::NoFault),
        (Fault::AdcConversionIncomplete, true)
    );
    assert_eq!(
        current_loop_cycle(false, false, Fault::NoFault),
        (Fault::AdcConversionIncomplete, false)
    );
    // A fault already pending stays.
    assert_eq!(
        current_loop_cycle(true, true, Fault::AdcConversionIncomplete),
        (Fault::AdcConversionIncomplete, true)
    );
}

#[test]
fn a_conversion_is_retrieved_once() {
    let (_firmware, _clock, mut adc1, mut adc2, _pwm1, _quadrature, _gpio) =
        bring_up(initialize(()), buffer(), new_adc2(), buffer());
    adc1.fake_mut().assert_trigger_wire();
    adc2.fake_mut().assert_trigger_wire();
    assert_eq!(retrieve_conversions(&mut adc1, &mut adc2, Fault::NoFault), (Fault::NoFault, true));
    assert_eq!(
        retrieve_conversions(&mut adc1, &mut adc2, Fault::NoFault),
        (Fault::AdcConversionIncomplete, false)
    );
}

#[test]
fn duty_cycles_are_zero_when_the_control_commands_none() {
    let zero = UnitInterval::new(0);
    assert_eq!(duty_cycles_or_zero(None), (zero, zero, zero));
    let phases = (UnitInterval::new(1), UnitInterval::new(2), UnitInterval::new(3));
    assert_eq!(duty_cycles_or_zero(Some(phases)), phases);
}

#[test]
fn apply_duty_cycles_sets_the_three_phases() {
    let mut pwm = Pwm::new(PwmTimer::Stm32g4Tim1, 170_000_000);
    pwm.open(PwmOptions::new(PWM_FREQUENCY_HZ, PWM_CHANNELS, tim1_dead_time(), true));
    let phases = (UnitInterval::new(10), UnitInterval::new(20), UnitInterval::new(30));
    apply_duty_cycles(&mut pwm, Some(phases));
    assert_eq!(pwm.fake().duty_cycle(0), UnitInterval::new(10));
    assert_eq!(pwm.fake().duty_cycle(1), UnitInterval::new(20));
    assert_eq!(pwm.fake().duty_cycle(2), UnitInterval::new(30));
    apply_duty_cycles(&mut pwm, None);
    assert_eq!(pwm.fake().duty_cycle(0), UnitInterval::new(0));
    assert_eq!(pwm.fake().duty_cycle(2), UnitInterval::new(0));
}

#[test]
fn a_new_firmware_has_no_fault() {
    assert_eq!(Firmware::new().fault(), Fault::NoFault);
}

#[test]
fn claiming_an_analog_pin_leaves_the_adc_as_it_was() {
    let mut adc = second_adc();
    let before = adc.fake().options();
    adc.claim_pin(rust_embedded::resources::split_off_fake((5u8, ())).0);
    assert_eq!(adc.fake().options(), before);
}

#[test]
fn split_off_fake_hands_back_the_pair() {
    assert_eq!(rust_embedded::resources::split_off_fake((1u8, "fake")), (1u8, "fake"));
}
