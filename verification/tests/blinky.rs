use rust_embedded::blinky::{blink, half_period};
use rust_embedded::duration::Duration;
use rust_embedded::esc1_discovery::{initialize, status_pin};
use rust_embedded::fake_clock::ClockProvider;
use rust_embedded::fake_gpio::Gpio;
use rust_embedded::gpio::GpioTrait;

#[test]
fn main_led_blinks_at_roughly_1hz() {
    let board = initialize(());
    let mut gpio: Gpio = board.gpio;
    let mut clock_provider: ClockProvider = board.clock_provider;

    assert!(blink(&mut gpio, &mut clock_provider, status_pin()));
    // Each blink is a full on/off cycle, so the LED is off again by the
    // time it returns.
    assert_eq!(gpio.get(status_pin()), false);
    let after_first_blink = clock_provider.fake().now();

    assert!(blink(&mut gpio, &mut clock_provider, status_pin()));
    let after_second_blink = clock_provider.fake().now();

    let period = after_second_blink - after_first_blink;
    assert!(
        period >= Duration::from_millis(900) && period <= Duration::from_millis(1100),
        "expected ~1s between blinks, got {period:?}"
    );
}

#[test]
fn half_a_blink_is_500_ms() {
    assert_eq!(half_period(), Duration::from_millis(500));
}

#[test]
fn blink_refuses_a_clock_at_the_end_of_its_range() {
    let board = initialize(());
    let mut gpio: Gpio = board.gpio;
    // At 2 Hz, jump to the last representable second: the next reading,
    // half a second on, would not fit an uptime.
    let mut clock_provider = ClockProvider::new((), 2);
    clock_provider.fake_mut().advance_by(Duration::from_seconds(2_147_483_647));
    assert!(!blink(&mut gpio, &mut clock_provider, status_pin()));
    assert_eq!(gpio.get(status_pin()), false);
}
