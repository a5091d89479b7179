use rust_embedded::clock::{ClockProviderTrait, ClockTrait};
use rust_embedded::dma::{DmaChannel, DmaInstance, DmaRequest, DmaTrait};
use rust_embedded::duration::Duration;
use rust_embedded::duration_from_ticks::DurationFromTicks;
use rust_embedded::fake_clock::ClockProvider;
use rust_embedded::fake_dma::{Dma, DmaChannelToken};
use rust_embedded::fake_gpio::Gpio;
use rust_embedded::gpio::{GpioMode, GpioPin, GpioPort, GpioPull, GpioSpeed, GpioTrait, PinToken};
use rust_embedded::uptime::Uptime;

// ---- GPIO ----

fn pin(port: GpioPort, pin_number: u8, mode: GpioMode, pull: GpioPull) -> GpioPin {
    GpioPin::new(port, pin_number, mode, pull, GpioSpeed::Low)
}

#[derive(Clone, Copy)]
struct TestPin;

impl PinToken for TestPin {
    const PORT: GpioPort = GpioPort::PC;
    const NUMBER: u8 = 6;
}

#[test]
fn starts_up_analog_and_low() {
    let gpio = Gpio::new();
    let p = pin(GpioPort::PC, 6, GpioMode::Input, GpioPull::Floating);
    assert!(!gpio.fake().get(p));
}

#[test]
fn pin_starts_unregistered() {
    let gpio = Gpio::new();
    let p = pin(GpioPort::PC, 6, GpioMode::Output, GpioPull::Floating);
    assert!(!gpio.fake().pin_registered(p));
}

#[test]
fn claim_pin_registers_it() {
    let mut gpio = Gpio::new();
    let p = pin(GpioPort::PC, 6, GpioMode::Output, GpioPull::Floating);
    gpio.claim_pin(TestPin);
    assert!(gpio.fake().pin_registered(p));
}

#[test]
fn pull_up_forces_physical_high() {
    let mut gpio = Gpio::new();
    gpio.claim_pin(TestPin);
    let p = pin(GpioPort::PC, 6, GpioMode::Input, GpioPull::Up);
    gpio.configure(p);
    assert!(gpio.fake().get(p));
}

#[test]
fn pull_down_forces_physical_low() {
    let mut gpio = Gpio::new();
    gpio.claim_pin(TestPin);
    gpio.configure(pin(GpioPort::PC, 6, GpioMode::Input, GpioPull::Up));
    let p = pin(GpioPort::PC, 6, GpioMode::Input, GpioPull::Down);
    gpio.configure(p);
    assert!(!gpio.fake().get(p));
}

#[test]
fn set_and_get_round_trip() {
    let mut gpio = Gpio::new();
    gpio.claim_pin(TestPin);
    let p = pin(GpioPort::PC, 6, GpioMode::Output, GpioPull::Floating);
    gpio.configure(p);
    gpio.set(p, true);
    assert!(gpio.fake().get(p));
    gpio.set(p, false);
    assert!(!gpio.fake().get(p));
}

#[test]
fn inverted_output_flips_logical_value() {
    let mut gpio = Gpio::new();
    gpio.claim_pin(TestPin);
    let p = pin(GpioPort::PC, 6, GpioMode::InvertedOutput, GpioPull::Floating);
    gpio.configure(p);
    gpio.set(p, true);
    assert!(gpio.fake().get(p));
    assert!(gpio.get(p));
}

#[test]
fn set_on_analog_pin_does_not_write() {
    let mut gpio = Gpio::new();
    gpio.claim_pin(TestPin);
    let p = pin(GpioPort::PC, 6, GpioMode::Analog, GpioPull::Floating);
    gpio.configure(p);
    gpio.set(p, true);
    assert!(!gpio.fake().get(p));
}

#[test]
fn set_on_alternate_mode_pin_does_not_write() {
    let mut gpio = Gpio::new();
    gpio.claim_pin(TestPin);
    let p = pin(GpioPort::PC, 6, GpioMode::AlternateMode, GpioPull::Floating);
    gpio.configure(p);
    gpio.set(p, true);
    assert!(!gpio.fake().get(p));
}

#[test]
fn set_on_input_pin_does_not_write() {
    let mut gpio = Gpio::new();
    gpio.claim_pin(TestPin);
    let p = pin(GpioPort::PC, 6, GpioMode::Input, GpioPull::Floating);
    gpio.configure(p);
    gpio.set(p, true);
    assert!(!gpio.fake().get(p));
}

#[test]
fn claim_pin_registers_only_the_pin_token_given() {
    let mut gpio = Gpio::new();
    gpio.claim_pin(TestPin);
    assert!(gpio.fake().pin_registered(pin(GpioPort::PC, 6, GpioMode::Output, GpioPull::Floating)));
    assert!(!gpio.fake().pin_registered(pin(GpioPort::PB, 0, GpioMode::Output, GpioPull::Floating)));
}

#[test]
fn fake_gpio_set_forces_state_regardless_of_mode() {
    let mut gpio = Gpio::new();
    gpio.claim_pin(TestPin);
    let p = pin(GpioPort::PC, 6, GpioMode::Input, GpioPull::Floating);
    gpio.configure(p);
    gpio.fake_mut().set(p, true);
    assert!(gpio.fake().get(p));
}

#[test]
fn fake_gpio_set_leaves_analog_and_alternate_pins_alone() {
    let mut gpio = Gpio::new();
    let analog = pin(GpioPort::PA, 1, GpioMode::Analog, GpioPull::Floating);
    let alternate = pin(GpioPort::PA, 2, GpioMode::AlternateMode, GpioPull::Floating);
    gpio.configure(analog);
    gpio.configure(alternate);
    gpio.fake_mut().set(analog, true);
    gpio.fake_mut().set(alternate, true);
    assert!(!gpio.fake().get(analog));
    assert!(!gpio.fake().get(alternate));
}

#[test]
fn fake_gpio_set_on_an_inverted_input_reads_back_the_forced_level() {
    let mut gpio = Gpio::new();
    let p = pin(GpioPort::PD, 3, GpioMode::InvertedInput, GpioPull::Floating);
    gpio.configure(p);
    gpio.fake_mut().set(p, true);
    assert!(gpio.get(p));
    gpio.fake_mut().set(p, false);
    assert!(!gpio.get(p));
}

#[test]
fn configuring_one_pin_leaves_its_neighbours_alone() {
    let mut gpio = Gpio::new();
    let p = pin(GpioPort::PC, 6, GpioMode::Input, GpioPull::Up);
    let neighbour = pin(GpioPort::PC, 7, GpioMode::Input, GpioPull::Floating);
    let other_port = pin(GpioPort::PD, 6, GpioMode::Input, GpioPull::Floating);
    gpio.configure(neighbour);
    gpio.configure(other_port);
    gpio.configure(p);
    assert!(gpio.get(p));
    assert!(!gpio.get(neighbour));
    assert!(!gpio.get(other_port));
}

#[test]
fn an_output_with_no_pull_resistor_is_driven_low_when_configured() {
    let mut gpio = Gpio::new();
    let input = pin(GpioPort::PC, 6, GpioMode::Input, GpioPull::Up);
    gpio.configure(input);
    assert!(gpio.get(input));
    let output = pin(GpioPort::PC, 6, GpioMode::Output, GpioPull::Floating);
    gpio.configure(output);
    assert!(!gpio.get(output));
    // An inverted output driven physically low reads logically high.
    gpio.configure(input);
    let inverted = pin(GpioPort::PC, 6, GpioMode::InvertedOutput, GpioPull::Floating);
    gpio.configure(inverted);
    assert!(gpio.get(inverted));
}

#[test]
fn an_input_with_no_pull_resistor_keeps_its_level_when_configured() {
    let mut gpio = Gpio::new();
    gpio.configure(pin(GpioPort::PC, 6, GpioMode::Input, GpioPull::Up));
    let floating = pin(GpioPort::PC, 6, GpioMode::Input, GpioPull::Floating);
    gpio.configure(floating);
    assert!(gpio.get(floating));
}

// ---- clock ----

const TICKS_PER_SECOND: u32 = 170_000_000;

#[test]
fn ticks_now_increments_by_one_each_call() {
    let mut provider = ClockProvider::new((), TICKS_PER_SECOND);
    let clock = provider.get_clock();
    assert_eq!(clock.ticks_now(), 1);
    assert_eq!(clock.ticks_now(), 2);
    assert_eq!(clock.ticks_now(), 3);
}

#[test]
fn ticks_per_second_matches_what_new_was_given() {
    let mut provider = ClockProvider::new((), TICKS_PER_SECOND);
    let clock = provider.get_clock();
    assert_eq!(clock.ticks_per_second(), TICKS_PER_SECOND);
}

#[test]
fn now_reflects_ticks_observed_since_the_last_reference_point() {
    let mut provider = ClockProvider::new((), TICKS_PER_SECOND);
    let clock = provider.get_clock();
    for _ in 0..999 {
        clock.ticks_now();
    }
    let uptime = clock.now();

    let mut reference = DurationFromTicks::new(TICKS_PER_SECOND);
    reference.advance_to(1000);
    assert_eq!(uptime, Uptime::epoch() + reference.now());
}

#[test]
fn advance_reference_point_keeps_now_accurate_after_many_ticks() {
    let mut provider = ClockProvider::new((), TICKS_PER_SECOND);
    for _ in 0..10_000 {
        provider.get_clock().ticks_now();
    }
    provider.advance_reference_point(); // reference point now at tick 10_001

    let clock = provider.get_clock();
    let uptime = clock.now(); // one more tick: 10_002

    let mut reference = DurationFromTicks::new(TICKS_PER_SECOND);
    reference.advance_to(10_002);
    assert_eq!(uptime, Uptime::epoch() + reference.now());
}

#[test]
fn time_at_converts_a_tick_count_without_calling_ticks_now() {
    let mut provider = ClockProvider::new((), TICKS_PER_SECOND);
    provider.advance_reference_point(); // reference point at tick 1
    let clock = provider.get_clock();

    let uptime = clock.time_at(501);

    let mut reference = DurationFromTicks::new(TICKS_PER_SECOND);
    reference.advance_to(501);
    assert_eq!(uptime, Uptime::epoch() + reference.now());
}

#[test]
fn wait_for_blocks_until_the_deadline_has_passed() {
    let mut provider = ClockProvider::new((), TICKS_PER_SECOND);
    let clock = provider.get_clock();
    let before = clock.now();

    let delay = Duration::new(1 << 20);
    clock.wait_for(delay);

    assert!(clock.now() >= before + delay);
}

#[test]
fn fake_now_matches_provider_and_does_not_perturb_ticks() {
    let mut provider = ClockProvider::new((), TICKS_PER_SECOND);
    assert_eq!(provider.get_clock().ticks_now(), 1);

    let _ = provider.fake().now();
    let _ = provider.fake().now();
    assert_eq!(provider.get_clock().ticks_now(), 2);
}

#[test]
fn fake_advance_by_moves_simulated_time_forward() {
    let mut provider = ClockProvider::new((), TICKS_PER_SECOND);
    let before = provider.fake().now();

    provider.fake_mut().advance_by(Duration::from_millis(500));

    assert_eq!(provider.fake().now() - before, Duration::from_millis(500));
    let fake_now = provider.fake().now();
    assert!(provider.get_clock().now() >= Uptime::epoch() + fake_now);
}

#[test]
fn fake_advance_by_floors_to_whole_ticks() {
    // At 1 MHz one tick is 4294.967296 raw units: 10_000 raw units is
    // 2.33 ticks, of which the 2 whole ticks are taken.
    let mut provider = ClockProvider::new((), 1_000_000);
    provider.fake_mut().advance_by(Duration::new(10_000));
    let mut reference = DurationFromTicks::new(1_000_000);
    reference.advance_by(2);
    assert_eq!(provider.fake().now(), reference.now());
    assert_eq!(provider.get_clock().ticks_now(), 3);
}

#[test]
fn a_negative_advance_wraps_the_tick_count() {
    // -1 raw unit floors to -1 tick, which a 32-bit counter reads as
    // 2^32 - 1 ticks further on.
    let mut provider = ClockProvider::new((), 2);
    provider.fake_mut().advance_by(Duration::new(-1));
    assert_eq!(provider.get_clock().ticks_now(), 0);
    let mut reference = DurationFromTicks::new(2);
    reference.advance_by(u32::MAX);
    assert_eq!(provider.fake().now(), reference.now());
}

// ---- DMA ----

#[derive(Clone, Copy)]
struct TestChannel;

impl DmaChannelToken for TestChannel {
    const INSTANCE: DmaInstance = DmaInstance::Stm32g4Dma2;
    const CHANNEL: u8 = 2;
}

fn channel() -> DmaChannel {
    DmaChannel::new(TestChannel::INSTANCE, TestChannel::CHANNEL)
}

#[test]
fn channel_starts_unclaimed_and_unallocated() {
    let dma = Dma::new();
    assert!(!dma.fake().is_claimed(channel()));
    assert_eq!(dma.fake().request(channel()), DmaRequest::NoRequest);
}

#[test]
fn claim_channel_registers_it() {
    let mut dma = Dma::new();
    dma.claim_channel(TestChannel);
    assert!(dma.fake().is_claimed(channel()));
}

#[test]
fn allocate_is_visible_through_both_handles() {
    let mut dma = Dma::new();
    dma.claim_channel(TestChannel);
    dma.allocate(channel(), DmaRequest::Stm32g4DmamuxReqAdc1);
    assert_eq!(dma.fake().request(channel()), DmaRequest::Stm32g4DmamuxReqAdc1);
}

#[test]
fn allocating_a_different_channel_does_not_affect_others() {
    let mut dma = Dma::new();
    let a = DmaChannel::new(DmaInstance::Stm32g4Dma1, 1);
    let b = DmaChannel::new(DmaInstance::Stm32g4Dma1, 2);
    dma.allocate(a, DmaRequest::Stm32g4DmamuxReqAdc1);
    assert_eq!(dma.fake().request(b), DmaRequest::NoRequest);
}

#[test]
fn lookup_channel_finds_the_channel_a_request_was_allocated_to() {
    let mut dma = Dma::new();
    dma.claim_channel(TestChannel);
    dma.allocate(channel(), DmaRequest::Stm32g4DmamuxReqAdc1);
    assert_eq!(dma.lookup_channel(DmaRequest::Stm32g4DmamuxReqAdc1), Some(channel()));
}

#[test]
fn lookup_channel_returns_none_for_an_unallocated_request() {
    let dma = Dma::new();
    assert_eq!(dma.lookup_channel(DmaRequest::Stm32g4DmamuxReqAdc1), None);
}

#[test]
fn lookup_channel_returns_none_for_none_even_if_a_channel_was_allocated_with_it() {
    let mut dma = Dma::new();
    dma.allocate(DmaChannel::new(DmaInstance::Stm32g4Dma1, 1), DmaRequest::NoRequest);
    assert_eq!(dma.lookup_channel(DmaRequest::NoRequest), None);
}

#[test]
fn claiming_one_channel_leaves_others_unclaimed() {
    let mut dma = Dma::new();
    dma.claim_channel(TestChannel);
    assert!(!dma.fake().is_claimed(DmaChannel::new(DmaInstance::Stm32g4Dma1, 2)));
}

// ---- quadrature encoder ----

use rust_embedded::fake_quadrature::Quadrature;
use rust_embedded::quadrature::{QuadratureInputConfiguration, QuadratureOptions, QuadratureTimer, QuadratureTrait};
use rust_embedded::unit_interval::UnitInterval;

fn options(encoder_counts: u32) -> QuadratureOptions {
    QuadratureOptions { input_configuration: QuadratureInputConfiguration::Ch12AreInputsAB, encoder_counts }
}

#[test]
fn quadrature_starts_at_position_zero() {
    let mut quad = Quadrature::new(QuadratureTimer::Stm32g4Tim1);
    quad.open(options(1000));
    assert_eq!(quad.position(), UnitInterval::new(0));
}

#[test]
fn move_by_advances_position_proportionally() {
    let mut quad = Quadrature::new(QuadratureTimer::Stm32g4Tim1);
    quad.open(options(1000));
    quad.fake_mut().move_by(250);
    assert_eq!(quad.position(), UnitInterval::new(u32::MAX / 4 + 1));
}

#[test]
fn move_by_wraps_forward_at_encoder_counts() {
    let mut quad = Quadrature::new(QuadratureTimer::Stm32g4Tim1);
    quad.open(options(1000));
    quad.fake_mut().move_by(1200);
    assert_eq!(quad.fake().position(), quad.position());
    let expected = (((200u64) << 32) / 1000) as u32;
    assert_eq!(quad.fake().position(), UnitInterval::new(expected));
}

#[test]
fn move_by_wraps_backward_below_zero() {
    let mut quad = Quadrature::new(QuadratureTimer::Stm32g4Tim1);
    quad.open(options(1000));
    quad.fake_mut().move_by(-1);
    let expected = (((999u64) << 32) / 1000) as u32;
    assert_eq!(quad.fake().position(), UnitInterval::new(expected));
}

#[test]
fn open_resets_position_to_zero() {
    let mut quad = Quadrature::new(QuadratureTimer::Stm32g4Tim1);
    quad.open(options(1000));
    quad.fake_mut().move_by(500);
    quad.open(options(1000));
    assert_eq!(quad.position(), UnitInterval::new(0));
}

#[test]
fn close_then_reopen_requires_position_to_wait_for_the_new_open() {
    let mut quad = Quadrature::new(QuadratureTimer::Stm32g4Tim1);
    quad.open(options(1000));
    quad.close();
    quad.open(options(500));
    assert_eq!(quad.position(), UnitInterval::new(0));
}

#[test]
fn set_encoder_reading_moves_to_the_given_reading() {
    let mut quad = Quadrature::new(QuadratureTimer::Stm32g4Tim1);
    quad.open(options(1000));
    quad.fake_mut().set_encoder_reading(400);
    let expected = (((400u64) << 32) / 1000) as u32;
    assert_eq!(quad.position(), UnitInterval::new(expected));
}

#[test]
fn set_encoder_reading_takes_the_shorter_forward_path() {
    let mut quad = Quadrature::new(QuadratureTimer::Stm32g4Tim1);
    quad.open(options(1000));
    quad.fake_mut().set_encoder_reading(100);
    let expected = (((100u64) << 32) / 1000) as u32;
    assert_eq!(quad.position(), UnitInterval::new(expected));
}

#[test]
fn set_encoder_reading_takes_the_shorter_backward_path() {
    let mut quad = Quadrature::new(QuadratureTimer::Stm32g4Tim1);
    quad.open(options(1000));
    quad.fake_mut().set_encoder_reading(900);
    let expected = (((900u64) << 32) / 1000) as u32;
    assert_eq!(quad.position(), UnitInterval::new(expected));
}

#[test]
fn set_encoder_reading_breaks_an_exact_tie_by_counting_up() {
    let mut quad = Quadrature::new(QuadratureTimer::Stm32g4Tim1);
    quad.open(options(1000));
    quad.fake_mut().set_encoder_reading(500);
    let expected = (((500u64) << 32) / 1000) as u32;
    assert_eq!(quad.position(), UnitInterval::new(expected));
}

#[test]
fn a_power_of_two_cycle_scales_exactly() {
    let mut quad = Quadrature::new(QuadratureTimer::Stm32g4Tim4);
    quad.open(options(128));
    quad.fake_mut().move_by(32);
    assert_eq!(quad.position(), UnitInterval::new(1 << 30));
    let mut single = Quadrature::new(QuadratureTimer::Stm32g4Tim4);
    single.open(options(1));
    single.fake_mut().move_by(7);
    assert_eq!(single.position(), UnitInterval::new(0));
}

// ---- PWM ----

use rust_embedded::fake_pwm::Pwm;
use rust_embedded::pwm::{PwmOptions, PwmTimer, PwmTrait};

fn pwm_options(channels: u8) -> PwmOptions {
    PwmOptions::new(20_000, channels, Duration::from_nanos(250), false)
}

#[test]
fn pwm_starts_closed_with_no_options() {
    let pwm = Pwm::new(PwmTimer::Stm32g4Tim1, 170_000_000);
    assert!(!pwm.fake().is_open());
    assert_eq!(pwm.fake().options(), None);
}

#[test]
fn pwm_open_records_options_and_marks_open() {
    let mut pwm = Pwm::new(PwmTimer::Stm32g4Tim1, 170_000_000);
    let opts = pwm_options(3);
    pwm.open(opts);
    assert!(pwm.fake().is_open());
    assert_eq!(pwm.fake().options(), Some(opts));
}

#[test]
fn close_marks_closed_and_clears_options() {
    let mut pwm = Pwm::new(PwmTimer::Stm32g4Tim1, 170_000_000);
    pwm.open(pwm_options(3));
    pwm.close();
    assert!(!pwm.fake().is_open());
    assert_eq!(pwm.fake().options(), None);
}

#[test]
fn every_channel_starts_at_zero_duty_cycle() {
    let mut pwm = Pwm::new(PwmTimer::Stm32g4Tim1, 170_000_000);
    pwm.open(pwm_options(3));
    assert_eq!(pwm.fake().duty_cycle(0), UnitInterval::new(0));
    assert_eq!(pwm.fake().duty_cycle(1), UnitInterval::new(0));
    assert_eq!(pwm.fake().duty_cycle(2), UnitInterval::new(0));
}

#[test]
fn set_duty_cycle_is_observable_via_the_fake() {
    let mut pwm = Pwm::new(PwmTimer::Stm32g4Tim1, 170_000_000);
    pwm.open(pwm_options(3));
    pwm.set_duty_cycle(1, UnitInterval::new(0x8000_0000));
    assert_eq!(pwm.fake().duty_cycle(1), UnitInterval::new(0x8000_0000));
    assert_eq!(pwm.fake().duty_cycle(0), UnitInterval::new(0));
}

#[test]
fn reopening_resets_every_duty_cycle_to_zero() {
    let mut pwm = Pwm::new(PwmTimer::Stm32g4Tim1, 170_000_000);
    pwm.open(pwm_options(3));
    pwm.set_duty_cycle(0, UnitInterval::new(u32::MAX));
    pwm.open(pwm_options(3));
    assert_eq!(pwm.fake().duty_cycle(0), UnitInterval::new(0));
}

#[test]
fn set_duty_cycle_while_closed_warns_and_does_nothing() {
    let mut pwm = Pwm::new(PwmTimer::Stm32g4Tim1, 170_000_000);
    pwm.set_duty_cycle(0, UnitInterval::new(u32::MAX));
    assert!(!pwm.fake().is_open());
    assert_eq!(pwm.fake().duty_cycle(0), UnitInterval::new(0));
}

#[test]
fn set_duty_cycle_outside_the_configured_channel_count_warns_and_does_nothing() {
    let mut pwm = Pwm::new(PwmTimer::Stm32g4Tim1, 170_000_000);
    pwm.open(pwm_options(1));
    pwm.set_duty_cycle(1, UnitInterval::new(u32::MAX));
    assert_eq!(pwm.fake().duty_cycle(1), UnitInterval::new(0));
}

#[test]
fn set_dead_time_is_observable_via_the_fakes_options() {
    let mut pwm = Pwm::new(PwmTimer::Stm32g4Tim1, 170_000_000);
    pwm.open(pwm_options(3));
    pwm.set_dead_time(Duration::from_nanos(500));
    assert_eq!(pwm.fake().options().unwrap().dead_time(), Duration::from_nanos(500));
}

#[test]
fn set_dead_time_leaves_every_other_option_untouched() {
    let mut pwm = Pwm::new(PwmTimer::Stm32g4Tim1, 170_000_000);
    pwm.open(pwm_options(3));
    pwm.set_dead_time(Duration::from_nanos(500));
    let updated = pwm.fake().options().unwrap();
    assert_eq!(updated.frequency_hz(), 20_000);
    assert_eq!(updated.channels(), 3);
    assert!(!updated.mid_point_trigger());
}

#[test]
fn set_dead_time_while_closed_warns_and_does_nothing() {
    let mut pwm = Pwm::new(PwmTimer::Stm32g4Tim1, 170_000_000);
    pwm.set_dead_time(Duration::from_nanos(500));
    assert!(!pwm.fake().is_open());
    assert_eq!(pwm.fake().options(), None);
}

// ---- ADC ----

use rust_embedded::adc::{AdcInstance, AdcOptions, AdcSampleBuffer, AdcTrait, AdcTriggerSource};
use rust_embedded::fake_adc::Adc;

fn unused_dma() -> Dma {
    Dma::new()
}

fn sample_buffer() -> &'static AdcSampleBuffer {
    Box::leak(Box::new(AdcSampleBuffer::new()))
}

fn sample(top_16_bits: u16) -> UnitInterval {
    UnitInterval::new((top_16_bits as u32) << 16)
}

fn new_adc() -> Adc {
    Adc::new(AdcInstance::Stm32g4Adc1, DmaRequest::Stm32g4DmamuxReqAdc1)
}

fn wire_options() -> AdcOptions {
    AdcOptions::new(&[4], sample_buffer(), AdcTriggerSource::Stm32g4Tim1TriggerOut1Rising)
}

#[test]
fn adc_starts_closed_with_no_options() {
    let adc = new_adc();
    assert!(!adc.fake().is_open());
    assert_eq!(adc.fake().options(), None);
}

#[test]
fn adc_open_records_options_and_marks_open() {
    let mut adc = new_adc();
    let options = AdcOptions::new(&[4], sample_buffer(), AdcTriggerSource::Software);
    adc.open(options, &unused_dma());
    assert!(adc.fake().is_open());
    assert_eq!(adc.fake().options(), Some(options));
}

#[test]
fn close_marks_closed() {
    let mut adc = new_adc();
    adc.open(AdcOptions::new(&[4], sample_buffer(), AdcTriggerSource::Software), &unused_dma());
    adc.close();
    assert!(!adc.fake().is_open());
    assert_eq!(adc.fake().options(), None);
}

#[test]
fn try_retrieve_result_is_false_before_any_trigger() {
    let mut adc = new_adc();
    assert!(!adc.try_retrieve_result());
}

#[test]
fn try_retrieve_result_returns_true_exactly_once_per_trigger() {
    let mut adc = new_adc();
    adc.open(AdcOptions::new(&[4], sample_buffer(), AdcTriggerSource::Software), &unused_dma());
    adc.trigger();
    assert!(adc.try_retrieve_result());
    assert!(!adc.try_retrieve_result());
    adc.trigger();
    assert!(adc.try_retrieve_result());
}

#[test]
fn trigger_while_closed_does_not_arm_a_conversion() {
    let mut adc = new_adc();
    adc.trigger();
    assert!(!adc.try_retrieve_result());
}

#[test]
fn get_sample_reads_back_a_value_set_via_fake() {
    let mut adc = new_adc();
    adc.open(AdcOptions::new(&[4, 7], sample_buffer(), AdcTriggerSource::Software), &unused_dma());
    adc.fake_mut().set_sample(1, sample(2345));
    adc.trigger();
    assert!(adc.try_retrieve_result());
    assert_eq!(adc.get_sample(1), sample(2345));
}

#[test]
fn get_sample_defaults_to_zero() {
    let mut adc = new_adc();
    adc.open(AdcOptions::new(&[4], sample_buffer(), AdcTriggerSource::Software), &unused_dma());
    assert_eq!(adc.get_sample(0), UnitInterval::default());
}

#[test]
fn get_sample_outside_the_configured_sequence_warns_and_returns_zero() {
    let mut adc = new_adc();
    adc.open(AdcOptions::new(&[4], sample_buffer(), AdcTriggerSource::Software), &unused_dma());
    adc.fake_mut().set_sample(1, sample(999));
    assert_eq!(adc.get_sample(1), UnitInterval::default());
}

#[test]
fn set_sample_keeps_only_the_top_sixteen_bits() {
    let mut adc = new_adc();
    adc.open(AdcOptions::new(&[4], sample_buffer(), AdcTriggerSource::Software), &unused_dma());
    adc.fake_mut().set_sample(0, UnitInterval::new(0x1234_ffff));
    assert_eq!(adc.get_sample(0), UnitInterval::new(0x1234_0000));
}

#[test]
fn trigger_with_a_hardware_source_warns_and_does_nothing() {
    let mut adc = new_adc();
    adc.open(wire_options(), &unused_dma());
    adc.trigger();
    assert!(!adc.try_retrieve_result());
}

#[test]
fn open_with_a_hardware_source_arms_immediately() {
    let mut adc = new_adc();
    adc.open(wire_options(), &unused_dma());
    adc.fake_mut().assert_trigger_wire();
    assert!(adc.try_retrieve_result());
}

#[test]
fn assert_trigger_wire_twice_without_an_intervening_try_retrieve_result_warns_the_second_time() {
    let mut adc = new_adc();
    adc.open(wire_options(), &unused_dma());
    adc.fake_mut().assert_trigger_wire();
    adc.fake_mut().assert_trigger_wire();
    assert!(adc.try_retrieve_result());
    assert!(!adc.try_retrieve_result());
}

#[test]
fn try_retrieve_result_rearms_for_the_wires_next_edge() {
    let mut adc = new_adc();
    adc.open(wire_options(), &unused_dma());
    adc.fake_mut().assert_trigger_wire();
    assert!(adc.try_retrieve_result());
    adc.fake_mut().assert_trigger_wire();
    assert!(adc.try_retrieve_result());
}

#[test]
fn assert_trigger_wire_with_software_source_warns_and_does_not_convert() {
    let mut adc = new_adc();
    adc.open(AdcOptions::new(&[4], sample_buffer(), AdcTriggerSource::Software), &unused_dma());
    adc.fake_mut().assert_trigger_wire();
    assert!(!adc.try_retrieve_result());
}

#[test]
fn assert_trigger_wire_while_closed_warns_and_does_nothing() {
    let mut adc = new_adc();
    adc.fake_mut().assert_trigger_wire();
    assert!(!adc.fake().is_open());
}
