use rust_embedded::clock::ClockTrait;
use rust_embedded::dma::{DmaChannel, DmaInstance, DmaRequest, DmaTrait};
use rust_embedded::esc1_discovery::{
    board_pins, button_pin, initialize, potentiometer_pin, status_pin, tim1_dead_time, MCU_FREQUENCY,
    OSCILLATOR_FREQUENCY,
};
use rust_embedded::fake_gpio::Gpio;
use rust_embedded::gpio::{GpioMode, GpioPin, GpioPort, GpioPull, GpioTrait, PinToken};
use rust_embedded::duration::Duration;

#[allow(non_camel_case_types)]
struct PA8;

impl PinToken for PA8 {
    const PORT: GpioPort = GpioPort::PA;
    const NUMBER: u8 = 8;
}

#[test]
fn claim_pins_registers_the_fake_pin_via_pin_token() {
    let mut gpio = Gpio::new();
    gpio.claim_pin(PA8);
    assert!(gpio.fake().pin_registered(GpioPin::input(GpioPort::PA, 8)));
    assert!(!gpio.fake().pin_registered(GpioPin::input(GpioPort::PA, 9)));
}

#[test]
fn initialize_configures_and_claims_every_board_pin() {
    let board = initialize(());
    for pin in board_pins() {
        assert!(board.gpio.fake().pin_registered(pin));
    }
    assert_eq!(board_pins().len(), 34);
    // Not connected on this board.
    assert!(!board.gpio.fake().pin_registered(GpioPin::input(GpioPort::PB, 10)));
}

#[test]
fn initialize_leaves_the_status_led_off_and_the_button_released() {
    let mut board = initialize(());
    assert!(!board.gpio.get(status_pin()));
    // The pull-up idles the button's pin high: not pressed.
    assert!(!board.gpio.get(button_pin()));
    board.gpio.set(status_pin(), true);
    assert!(board.gpio.get(status_pin()));
    board.gpio.fake_mut().set(button_pin(), true);
    assert!(board.gpio.get(button_pin()));
}

#[test]
fn initialize_routes_dma2_channel_1_to_adc1() {
    let board = initialize(());
    let channel = DmaChannel::new(DmaInstance::Stm32g4Dma2, 1);
    assert_eq!(board.dma.lookup_channel(DmaRequest::Stm32g4DmamuxReqAdc1), Some(channel));
    assert!(board.dma.fake().is_claimed(channel));
    assert_eq!(board.dma.fake().request(DmaChannel::new(DmaInstance::Stm32g4Dma1, 1)), DmaRequest::NoRequest);
}

#[test]
fn initialize_runs_the_clock_at_the_mcu_frequency() {
    let mut board = initialize(());
    let clock = board.clock_provider.get_clock();
    assert_eq!(clock.ticks_per_second(), MCU_FREQUENCY);
    assert_eq!(clock.ticks_now(), 1);
}

#[test]
fn initialize_leaves_every_driver_closed() {
    let board = initialize(());
    assert!(!board.adc1.fake().is_open());
    assert!(!board.pwm1.fake().is_open());
}

#[test]
fn board_pin_roles() {
    let pot = potentiometer_pin();
    assert_eq!(pot.mode(), GpioMode::Analog);
    assert_eq!((pot.port(), pot.pin_number()), (GpioPort::PB, 12));
    let button = button_pin();
    assert_eq!(button.mode(), GpioMode::InvertedInput);
    assert_eq!(button.pull(), GpioPull::Up);
    assert_eq!(tim1_dead_time(), Duration::from_nanos(230));
}

use rust_embedded::pll::{pll_dividers, PllDividers};

#[test]
fn the_boards_oscillator_reaches_the_mcu_frequency_with_m2_n85_r2() {
    assert_eq!(
        pll_dividers(OSCILLATOR_FREQUENCY, MCU_FREQUENCY),
        Some(PllDividers { m: 2, n: 85, r: 2 })
    );
}

#[test]
fn the_search_takes_the_smallest_m_that_divides_exactly() {
    // 24 MHz / 6 * 85 / 2 = 170 MHz; M below 6 leaves a fractional N.
    assert_eq!(pll_dividers(24_000_000, 170_000_000), Some(PllDividers { m: 6, n: 85, r: 2 }));
}

#[test]
fn an_n_below_its_range_moves_the_search_on_to_the_next_m() {
    // 16 MHz to 48 MHz: M = 1 would need N = 6.
    assert_eq!(pll_dividers(16_000_000, 48_000_000), Some(PllDividers { m: 2, n: 12, r: 2 }));
}

#[test]
fn a_larger_r_is_taken_when_the_vco_would_be_too_slow() {
    // 40 MHz * 2 is below the VCO's range; R = 4 gives 160 MHz.
    assert_eq!(pll_dividers(8_000_000, 40_000_000), Some(PllDividers { m: 1, n: 20, r: 4 }));
}

#[test]
fn an_oscillator_too_slow_for_the_pll_input_has_no_dividers() {
    assert_eq!(pll_dividers(1_000_000, 170_000_000), None);
}

#[test]
fn a_system_clock_too_fast_for_the_vco_has_no_dividers() {
    assert_eq!(pll_dividers(8_000_000, 200_000_000), None);
}

use rust_embedded::adc::AdcInstance;
use rust_embedded::esc1_discovery::{clock_configuration, OSCILLATOR_IS_CRYSTAL};
use rust_embedded::peri::Peri;
use rust_embedded::pwm::PwmTimer;
use rust_embedded::quadrature::QuadratureTimer;
use rust_embedded::resources::{
    claim_adc, claim_pwm_timer, claim_quadrature_timer, Adc1, Adc2, Tim1, Tim3, Tim4, Tim8,
};

#[test]
fn the_board_clocks_its_mcu_from_a_crystal_through_the_pll() {
    let configuration = clock_configuration();
    assert_eq!(configuration.mcu_frequency, 170_000_000);
    assert_eq!(configuration.oscillator_frequency, 8_000_000);
    assert!(configuration.timepiece_is_crystal);
    assert!(OSCILLATOR_IS_CRYSTAL);
    assert!(pll_dividers(configuration.oscillator_frequency, configuration.mcu_frequency).is_some());
}

#[test]
fn claiming_a_token_names_its_driver_instance() {
    assert_eq!(claim_quadrature_timer(Peri::new_unchecked(Tim1)), QuadratureTimer::Stm32g4Tim1);
    assert_eq!(claim_quadrature_timer(Peri::new_unchecked(Tim3)), QuadratureTimer::Stm32g4Tim3);
    assert_eq!(claim_quadrature_timer(Peri::new_unchecked(Tim4)), QuadratureTimer::Stm32g4Tim4);
    assert_eq!(claim_quadrature_timer(Peri::new_unchecked(Tim8)), QuadratureTimer::Stm32g4Tim8);
    assert_eq!(claim_adc(Peri::new_unchecked(Adc1)), AdcInstance::Stm32g4Adc1);
    assert_eq!(claim_adc(Peri::new_unchecked(Adc2)), AdcInstance::Stm32g4Adc2);
    assert_eq!(claim_pwm_timer(Peri::new_unchecked(Tim1)), PwmTimer::Stm32g4Tim1);
    assert_eq!(claim_pwm_timer(Peri::new_unchecked(Tim8)), PwmTimer::Stm32g4Tim8);
}
