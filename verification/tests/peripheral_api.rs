use rust_embedded::adc::{AdcOptions, AdcSampleBuffer, AdcTriggerSource, MAX_ADC_SEQUENCE_LENGTH};
use rust_embedded::dma::{dma_request_from_id, DmaChannel, DmaInstance, DmaRequest};
use rust_embedded::duration::Duration;
use rust_embedded::fake_gpio::Gpio;
use rust_embedded::gpio::{GpioMode, GpioPin, GpioPort, GpioPull, GpioSpeed, PinToken};
use rust_embedded::pwm::{PwmOptions, PwmTimer, MAX_PWM_CHANNELS};

fn buffer() -> &'static AdcSampleBuffer {
    Box::leak(Box::new(AdcSampleBuffer::new()))
}

// ---- ADC options ----

#[test]
fn new_stores_the_given_channels_in_order() {
    let options = AdcOptions::new(&[3, 7, 1], buffer(), AdcTriggerSource::Software);
    assert_eq!(options.sequence(), &[3, 7, 1]);
}

#[test]
fn new_accepts_an_empty_sequence() {
    let options = AdcOptions::new(&[], buffer(), AdcTriggerSource::Software);
    assert_eq!(options.sequence(), &[] as &[u8]);
}

#[test]
fn new_accepts_exactly_max_sequence_length_channels() {
    let channels = [5u8; MAX_ADC_SEQUENCE_LENGTH];
    let options = AdcOptions::new(&channels, buffer(), AdcTriggerSource::Software);
    assert_eq!(options.sequence(), &channels);
}

#[test]
fn adc_constructible_in_const_context() {
    let options = AdcOptions::new(&[2, 9], buffer(), AdcTriggerSource::Software);
    assert_eq!(options.sequence(), &[2, 9]);
}

#[test]
fn new_stores_the_given_trigger_source() {
    let options = AdcOptions::new(&[2], buffer(), AdcTriggerSource::Stm32g4Tim1TriggerOut2Rising);
    assert_eq!(options.trigger_source(), AdcTriggerSource::Stm32g4Tim1TriggerOut2Rising);
}

#[test]
fn equality_compares_buffer_identity_not_contents() {
    let shared = buffer();
    let other = buffer();
    let a = AdcOptions::new(&[1, 2], shared, AdcTriggerSource::Software);
    let b = AdcOptions::new(&[1, 2], shared, AdcTriggerSource::Software);
    let c = AdcOptions::new(&[1, 2], other, AdcTriggerSource::Software);
    assert_eq!(a, b);
    assert_ne!(a, c);
}

#[test]
fn equality_compares_trigger_source() {
    let shared = buffer();
    let a = AdcOptions::new(&[1, 2], shared, AdcTriggerSource::Software);
    let b = AdcOptions::new(&[1, 2], shared, AdcTriggerSource::Stm32g4Tim1TriggerOut1Rising);
    assert_ne!(a, b);
}

#[test]
fn equality_compares_the_sequence() {
    let shared = buffer();
    let a = AdcOptions::new(&[1, 2], shared, AdcTriggerSource::Software);
    let b = AdcOptions::new(&[2, 1], shared, AdcTriggerSource::Software);
    let c = AdcOptions::new(&[1], shared, AdcTriggerSource::Software);
    assert_ne!(a, b);
    assert_ne!(a, c);
}

// ---- DMA ----

#[test]
fn none_is_the_default_and_discriminant_zero() {
    assert_eq!(DmaRequest::default(), DmaRequest::NoRequest);
    assert_eq!(DmaRequest::NoRequest.id(), 0);
}

#[test]
fn dma_channel_stores_instance_and_channel() {
    let c = DmaChannel::new(DmaInstance::Stm32g4Dma2, 3);
    assert_eq!(c.instance, DmaInstance::Stm32g4Dma2);
    assert_eq!(c.channel, 3);
}

#[test]
fn dma_constructible_in_const_context() {
    let channel = DmaChannel::new(DmaInstance::Stm32g4Dma1, 5);
    assert_eq!(channel, DmaChannel { instance: DmaInstance::Stm32g4Dma1, channel: 5 });
}

#[test]
fn discriminants_match_rm0440_table_91() {
    assert_eq!(DmaRequest::Stm32g4DmamuxReqGen0.id(), 1);
    assert_eq!(DmaRequest::Stm32g4DmamuxReqAdc1.id(), 5);
    assert_eq!(DmaRequest::Stm32g4DmamuxReqUcpd1Tx.id(), 115);
}

#[test]
fn every_request_id_round_trips() {
    // 40 is reserved in the request-multiplexer table.
    for id in (0u8..=115).filter(|&id| id != 40) {
        assert_eq!(dma_request_from_id(id).id(), id);
    }
    assert_eq!(DmaRequest::Stm32g4DmamuxReqAdc4.id(), 38);
    assert_eq!(DmaRequest::Stm32g4DmamuxReqDac2Ch1.id(), 41);
}

// ---- GPIO pins ----

struct Pa0;
impl PinToken for Pa0 {
    const PORT: GpioPort = GpioPort::PA;
    const NUMBER: u8 = 0;
}

struct Pa1;
impl PinToken for Pa1 {
    const PORT: GpioPort = GpioPort::PA;
    const NUMBER: u8 = 1;
}

struct Pc13;
impl PinToken for Pc13 {
    const PORT: GpioPort = GpioPort::PC;
    const NUMBER: u8 = 13;
}

/// Claiming a list of pins is one `claim_pin` call per pin: each of them
/// ends up claimed, and nothing else.
#[test]
fn claim_pins_calls_claim_pin_once_per_argument() {
    let mut gpio = Gpio::new();
    let (pa0, pa1, pc13) = (Pa0, Pa1, Pc13);
    gpio.claim_pin(pa0);
    gpio.claim_pin(pa1);
    gpio.claim_pin(pc13);
    let claimed = [
        GpioPin::input(GpioPort::PA, 0),
        GpioPin::input(GpioPort::PA, 1),
        GpioPin::input(GpioPort::PC, 13),
    ];
    let count = claimed.iter().filter(|&&pin| gpio.fake().pin_registered(pin)).count();
    assert_eq!(count, 3);
    assert!(!gpio.fake().pin_registered(GpioPin::input(GpioPort::PA, 2)));
}

#[test]
fn output_defaults_to_no_pull_and_low_speed() {
    let pin = GpioPin::output(GpioPort::PC, 6);
    assert_eq!(pin.port(), GpioPort::PC);
    assert_eq!(pin.pin_number(), 6);
    assert_eq!(pin.mode(), GpioMode::Output);
    assert_eq!(pin.pull(), GpioPull::Floating);
    assert_eq!(pin.speed(), GpioSpeed::Low);
    assert_eq!(pin.alternate_function(), 0);
}

#[test]
fn analog_defaults_to_no_pull() {
    let pin = GpioPin::analog(GpioPort::PC, 6);
    assert_eq!(pin.mode(), GpioMode::Analog);
    assert_eq!(pin.pull(), GpioPull::Floating);
}

#[test]
fn with_pull_up_and_with_high_speed_override_the_defaults() {
    let pin = GpioPin::output(GpioPort::PC, 6).with_pull_up().with_high_speed();
    assert_eq!(pin.pull(), GpioPull::Up);
    assert_eq!(pin.speed(), GpioSpeed::High);
}

#[test]
fn with_pull_down_overrides_a_previous_pull_up() {
    let pin = GpioPin::input(GpioPort::PC, 6).with_pull_up().with_pull_down();
    assert_eq!(pin.pull(), GpioPull::Down);
}

#[test]
fn input_defaults_to_no_pull_and_low_speed() {
    let pin = GpioPin::input(GpioPort::PC, 6);
    assert_eq!(pin.mode(), GpioMode::Input);
    assert_eq!(pin.pull(), GpioPull::Floating);
    assert_eq!(pin.speed(), GpioSpeed::Low);
}

#[test]
fn alternate_stores_af_index() {
    let pin = GpioPin::alternate(GpioPort::PC, 6, 9).with_very_high_speed();
    assert_eq!(pin.mode(), GpioMode::AlternateMode);
    assert_eq!(pin.alternate_function(), 9);
    assert_eq!(pin.speed(), GpioSpeed::VeryHigh);
}

#[test]
fn constructors_and_builders_are_usable_in_const_context() {
    let out = GpioPin::output(GpioPort::PC, 6);
    let input = GpioPin::input(GpioPort::PC, 6).with_pull_up();
    let af = GpioPin::alternate(GpioPort::PC, 6, 6).with_very_high_speed();
    assert_eq!(out.mode(), GpioMode::Output);
    assert_eq!(input.mode(), GpioMode::Input);
    assert_eq!(input.pull(), GpioPull::Up);
    assert_eq!(af.alternate_function(), 6);
    assert_eq!(af.speed(), GpioSpeed::VeryHigh);
}

#[test]
fn inverted_modes_and_the_last_pin_of_the_last_port_pack_and_unpack() {
    let pin = GpioPin::inverted_output(GpioPort::PJ, 255).with_medium_speed().with_pull_down();
    assert_eq!(pin.port(), GpioPort::PJ);
    assert_eq!(pin.pin_number(), 255);
    assert_eq!(pin.mode(), GpioMode::InvertedOutput);
    assert_eq!(pin.pull(), GpioPull::Down);
    assert_eq!(pin.speed(), GpioSpeed::Medium);
    let pin = GpioPin::inverted_input(GpioPort::PA, 0).with_low_speed();
    assert_eq!(pin.mode(), GpioMode::InvertedInput);
    assert_eq!(pin.speed(), GpioSpeed::Low);
    assert_eq!(GpioPin::alternate(GpioPort::PB, 3, 15).alternate_function(), 15);
}

#[test]
fn new_packs_every_field() {
    let pin = GpioPin::new(GpioPort::PE, 12, GpioMode::Input, GpioPull::Up, GpioSpeed::High);
    assert_eq!(pin.port(), GpioPort::PE);
    assert_eq!(pin.pin_number(), 12);
    assert_eq!(pin.mode(), GpioMode::Input);
    assert_eq!(pin.pull(), GpioPull::Up);
    assert_eq!(pin.speed(), GpioSpeed::High);
    assert_eq!(pin.alternate_function(), 0);
}

// ---- PWM options ----

#[test]
fn new_stores_the_given_fields() {
    let options = PwmOptions::new(20_000, 3, Duration::from_nanos(500), true);
    assert_eq!(options.frequency_hz(), 20_000);
    assert_eq!(options.channels(), 3);
    assert_eq!(options.dead_time(), Duration::from_nanos(500));
    assert!(options.mid_point_trigger());
}

#[test]
fn new_accepts_the_minimum_and_maximum_channel_count() {
    assert_eq!(PwmOptions::new(1, 1, Duration::new(0), false).channels(), 1);
    assert_eq!(
        PwmOptions::new(1, MAX_PWM_CHANNELS, Duration::new(0), false).channels(),
        MAX_PWM_CHANNELS
    );
}

#[test]
fn pwm_constructible_in_const_context() {
    let options = PwmOptions::new(20_000, 2, Duration::from_nanos(250), false);
    assert_eq!(options.channels(), 2);
}

#[test]
fn different_timers_get_different_trigger_names() {
    assert_ne!(
        format!("{:?}", PwmTimer::Stm32g4Tim1.trigger_out_2()),
        format!("{:?}", PwmTimer::Stm32g4Tim8.trigger_out_2())
    );
}

#[test]
fn trigger_out_2_names_each_timers_trgo2_wire() {
    assert_eq!(PwmTimer::Stm32g4Tim1.trigger_out_2(), AdcTriggerSource::Stm32g4Tim1TriggerOut2Rising);
    assert_eq!(PwmTimer::Stm32g4Tim8.trigger_out_2(), AdcTriggerSource::Stm32g4Tim8TriggerOut2Rising);
    assert_eq!(PwmTimer::Stm32g4Tim20.trigger_out_2(), AdcTriggerSource::Stm32g4Tim20TriggerOut2Rising);
}

// ---- register arithmetic ----

use rust_embedded::dma::{dmamux_channel_index, zero_based_index};
use rust_embedded::pwm::{compare_value_for_duty_cycle, compute_psc_arr, dead_time_dtg};
use rust_embedded::unit_interval::UnitInterval;

#[test]
fn the_prescaler_stays_zero_while_the_reload_fits_sixteen_bits() {
    // 170 MHz / (2 * 20 kHz) = 4250 counts per half period.
    assert_eq!(compute_psc_arr(170_000_000, 20_000), (0, 4250));
}

#[test]
fn the_prescaler_grows_until_the_reload_fits() {
    // 170 MHz / (2 * 1 kHz) = 85000 does not fit; prescaling by 2 gives 42500.
    assert_eq!(compute_psc_arr(170_000_000, 1_000), (1, 42500));
}

#[test]
fn the_reload_value_rounds_to_the_nearest_count() {
    // 170 MHz / (2 * 30 kHz) = 2833.3, rounded to 2833.
    assert_eq!(compute_psc_arr(170_000_000, 30_000), (0, 2833));
    // 170 MHz / (2 * 24 kHz) = 3541.7, rounded to 3542.
    assert_eq!(compute_psc_arr(170_000_000, 24_000), (0, 3542));
}

#[test]
fn a_short_dead_time_counts_single_ticks() {
    // 230 ns at 170 MHz is 39 ticks.
    assert_eq!(dead_time_dtg(170_000_000, Duration::from_nanos(230)), 39);
    assert_eq!(dead_time_dtg(170_000_000, Duration::new(0)), 0);
}

#[test]
fn a_longer_dead_time_counts_pairs_of_ticks() {
    // 1 us at 170 MHz is 169 ticks: 84 pairs, 64 of them implied by the range.
    assert_eq!(dead_time_dtg(170_000_000, Duration::from_micros(1)), 0b1000_0000 | 20);
}

#[test]
fn a_dead_time_beyond_the_field_saturates() {
    assert_eq!(dead_time_dtg(170_000_000, Duration::from_millis(1)), 0xff);
    // A negative dead time counts as none.
    assert_eq!(dead_time_dtg(170_000_000, Duration::new(-5)), 0);
}

#[test]
fn the_compare_value_scales_the_duty_cycle_to_the_reload() {
    assert_eq!(compare_value_for_duty_cycle(UnitInterval::new(0x8000_0000), 4250), 2125);
    assert_eq!(compare_value_for_duty_cycle(UnitInterval::new(0), 4250), 0);
    assert_eq!(compare_value_for_duty_cycle(UnitInterval::new(u32::MAX), 4250), 4249);
}

#[test]
fn dma2_channels_follow_dma1s_eight_in_the_request_multiplexer() {
    assert_eq!(dmamux_channel_index(DmaChannel::new(DmaInstance::Stm32g4Dma1, 1)), 0);
    assert_eq!(dmamux_channel_index(DmaChannel::new(DmaInstance::Stm32g4Dma1, 8)), 7);
    assert_eq!(dmamux_channel_index(DmaChannel::new(DmaInstance::Stm32g4Dma2, 1)), 8);
    assert_eq!(zero_based_index(DmaChannel::new(DmaInstance::Stm32g4Dma2, 6)), 5);
}
