//! The B-G431B-ESC1 Discovery kit (MB1419, STM32G431CBU6): its pin map
//! (Table 4 "Main board STM32G431CB pinout for motor control" of UM2516)
//! and bringing the board up on the simulated peripherals.
use vstd::prelude::*;
use crate::adc::AdcInstance;
use crate::dma::{DmaChannel, DmaInstance, DmaRequest, DmaTrait};
use crate::duration::{raw_of_units, Duration};
use crate::fake_adc::Adc;
use crate::fake_clock::ClockProvider;
use crate::fake_dma::{Dma, DmaChannelToken};
use crate::fake_gpio::{configured_state, pin_index, Gpio, PinState};
use crate::fake_pwm::Pwm;
use crate::fake_quadrature::Quadrature;
use crate::gpio::{GpioMode, GpioPin, GpioPinView, GpioPort, GpioPull, GpioSpeed, GpioTrait};
use crate::peri::Peri;
use crate::pwm::PwmTimer;
use crate::resources::{
    claim_adc, claim_pwm_timer, claim_quadrature_timer, lemma_token_names, Adc1, ClockConfiguration,
    Tim1, Tim4,
};

verus! {

/// The board's HSE crystal frequency (8 MHz, across `PF0`/`PF1`).
pub const OSCILLATOR_FREQUENCY: u32 = 8_000_000;

/// The CPU frequency the PLL is configured to reach from
/// [`OSCILLATOR_FREQUENCY`], and the frequency of the clock's tick counter.
pub const MCU_FREQUENCY: u32 = 170_000_000;

/// The HSE timepiece is a crystal (both `PF0` and `PF1` in use) rather than
/// an active oscillator module.
pub const OSCILLATOR_IS_CRYSTAL: bool = true;

/// The interrupt controller's priority levels, as a power-of-two exponent
/// (valid for every ST Cortex-M4 part).
pub const RTIC_PRIORITY_BITS: u8 = 4;

/// How the board clocks its MCU: the PLL scales the [`OSCILLATOR_FREQUENCY`]
/// crystal up to [`MCU_FREQUENCY`].
pub fn clock_configuration() -> (configuration: ClockConfiguration)
    ensures
        configuration.mcu_frequency == MCU_FREQUENCY,
        configuration.oscillator_frequency == OSCILLATOR_FREQUENCY,
        configuration.timepiece_is_crystal == OSCILLATOR_IS_CRYSTAL,
{
    ClockConfiguration {
        mcu_frequency: MCU_FREQUENCY,
        oscillator_frequency: OSCILLATOR_FREQUENCY,
        timepiece_is_crystal: OSCILLATOR_IS_CRYSTAL,
    }
}

/// TIM1's dead time between each complementary pair switching, measured by
/// hand at 28 V bus voltage with no load: 230 ns.
pub fn tim1_dead_time() -> (dead_time: Duration)
    ensures
        dead_time@ == raw_of_units(230, 1_000_000_000),
{
    Duration::from_nanos(230)
}

/// DMA2's channel 1, which carries ADC1's conversions.
pub struct Dma2Channel1;

impl DmaChannelToken for Dma2Channel1 {
    const INSTANCE: DmaInstance = DmaInstance::Stm32g4Dma2;
    const CHANNEL: u8 = 1;
}

/// Every pin the board assigns a role to, in port then pin-number order.
#[verifier::opaque]
pub open spec fn board_pin_table() -> Seq<GpioPinView> {
    seq![
        GpioPinView { port: GpioPort::PA, pin_number: 0, mode: GpioMode::Analog, pull: GpioPull::Floating, speed: GpioSpeed::Low, alternate_function: 0 },
        GpioPinView { port: GpioPort::PA, pin_number: 1, mode: GpioMode::Analog, pull: GpioPull::Floating, speed: GpioSpeed::Low, alternate_function: 0 },
        GpioPinView { port: GpioPort::PA, pin_number: 2, mode: GpioMode::Analog, pull: GpioPull::Floating, speed: GpioSpeed::Low, alternate_function: 0 },
        GpioPinView { port: GpioPort::PA, pin_number: 3, mode: GpioMode::Analog, pull: GpioPull::Floating, speed: GpioSpeed::Low, alternate_function: 0 },
        GpioPinView { port: GpioPort::PA, pin_number: 4, mode: GpioMode::Analog, pull: GpioPull::Floating, speed: GpioSpeed::Low, alternate_function: 0 },
        GpioPinView { port: GpioPort::PA, pin_number: 5, mode: GpioMode::Analog, pull: GpioPull::Floating, speed: GpioSpeed::Low, alternate_function: 0 },
        GpioPinView { port: GpioPort::PA, pin_number: 6, mode: GpioMode::Analog, pull: GpioPull::Floating, speed: GpioSpeed::Low, alternate_function: 0 },
        GpioPinView { port: GpioPort::PA, pin_number: 7, mode: GpioMode::Analog, pull: GpioPull::Floating, speed: GpioSpeed::Low, alternate_function: 0 },
        GpioPinView { port: GpioPort::PA, pin_number: 8, mode: GpioMode::AlternateMode, pull: GpioPull::Floating, speed: GpioSpeed::VeryHigh, alternate_function: 6 },
        GpioPinView { port: GpioPort::PA, pin_number: 9, mode: GpioMode::AlternateMode, pull: GpioPull::Floating, speed: GpioSpeed::VeryHigh, alternate_function: 6 },
        GpioPinView { port: GpioPort::PA, pin_number: 10, mode: GpioMode::AlternateMode, pull: GpioPull::Floating, speed: GpioSpeed::VeryHigh, alternate_function: 6 },
        GpioPinView { port: GpioPort::PA, pin_number: 11, mode: GpioMode::AlternateMode, pull: GpioPull::Floating, speed: GpioSpeed::Low, alternate_function: 9 },
        GpioPinView { port: GpioPort::PA, pin_number: 12, mode: GpioMode::AlternateMode, pull: GpioPull::Floating, speed: GpioSpeed::VeryHigh, alternate_function: 6 },
        GpioPinView { port: GpioPort::PA, pin_number: 15, mode: GpioMode::AlternateMode, pull: GpioPull::Down, speed: GpioSpeed::Low, alternate_function: 1 },
        GpioPinView { port: GpioPort::PB, pin_number: 0, mode: GpioMode::Analog, pull: GpioPull::Floating, speed: GpioSpeed::Low, alternate_function: 0 },
        GpioPinView { port: GpioPort::PB, pin_number: 1, mode: GpioMode::Analog, pull: GpioPull::Floating, speed: GpioSpeed::Low, alternate_function: 0 },
        GpioPinView { port: GpioPort::PB, pin_number: 2, mode: GpioMode::Analog, pull: GpioPull::Floating, speed: GpioSpeed::Low, alternate_function: 0 },
        GpioPinView { port: GpioPort::PB, pin_number: 3, mode: GpioMode::AlternateMode, pull: GpioPull::Floating, speed: GpioSpeed::Low, alternate_function: 7 },
        GpioPinView { port: GpioPort::PB, pin_number: 4, mode: GpioMode::AlternateMode, pull: GpioPull::Floating, speed: GpioSpeed::Low, alternate_function: 7 },
        GpioPinView { port: GpioPort::PB, pin_number: 5, mode: GpioMode::Input, pull: GpioPull::Floating, speed: GpioSpeed::Low, alternate_function: 0 },
        GpioPinView { port: GpioPort::PB, pin_number: 6, mode: GpioMode::AlternateMode, pull: GpioPull::Floating, speed: GpioSpeed::Low, alternate_function: 2 },
        GpioPinView { port: GpioPort::PB, pin_number: 7, mode: GpioMode::AlternateMode, pull: GpioPull::Floating, speed: GpioSpeed::Low, alternate_function: 2 },
        GpioPinView { port: GpioPort::PB, pin_number: 8, mode: GpioMode::AlternateMode, pull: GpioPull::Floating, speed: GpioSpeed::Low, alternate_function: 2 },
        GpioPinView { port: GpioPort::PB, pin_number: 9, mode: GpioMode::AlternateMode, pull: GpioPull::Floating, speed: GpioSpeed::High, alternate_function: 9 },
        GpioPinView { port: GpioPort::PB, pin_number: 11, mode: GpioMode::Analog, pull: GpioPull::Floating, speed: GpioSpeed::Low, alternate_function: 0 },
        GpioPinView { port: GpioPort::PB, pin_number: 12, mode: GpioMode::Analog, pull: GpioPull::Floating, speed: GpioSpeed::Low, alternate_function: 0 },
        GpioPinView { port: GpioPort::PB, pin_number: 14, mode: GpioMode::Analog, pull: GpioPull::Floating, speed: GpioSpeed::Low, alternate_function: 0 },
        GpioPinView { port: GpioPort::PB, pin_number: 15, mode: GpioMode::AlternateMode, pull: GpioPull::Floating, speed: GpioSpeed::VeryHigh, alternate_function: 4 },
        GpioPinView { port: GpioPort::PC, pin_number: 4, mode: GpioMode::Analog, pull: GpioPull::Floating, speed: GpioSpeed::Low, alternate_function: 0 },
        GpioPinView { port: GpioPort::PC, pin_number: 6, mode: GpioMode::Output, pull: GpioPull::Floating, speed: GpioSpeed::Low, alternate_function: 0 },
        GpioPinView { port: GpioPort::PC, pin_number: 10, mode: GpioMode::InvertedInput, pull: GpioPull::Up, speed: GpioSpeed::Low, alternate_function: 0 },
        GpioPinView { port: GpioPort::PC, pin_number: 11, mode: GpioMode::InvertedOutput, pull: GpioPull::Floating, speed: GpioSpeed::Low, alternate_function: 0 },
        GpioPinView { port: GpioPort::PC, pin_number: 13, mode: GpioMode::AlternateMode, pull: GpioPull::Floating, speed: GpioSpeed::VeryHigh, alternate_function: 4 },
        GpioPinView { port: GpioPort::PC, pin_number: 14, mode: GpioMode::Output, pull: GpioPull::Floating, speed: GpioSpeed::Low, alternate_function: 0 },
    ]
}

/// The slot of a pin configuration in the simulated chip.
pub open spec fn slot(pin: GpioPinView) -> int {
    pin_index(pin.port, pin.pin_number)
}

/// Whether the views in `views` occupy strictly increasing slots.
pub open spec fn increasing_slots(views: Seq<GpioPinView>) -> bool {
    forall|i: int, j: int| 0 <= i < j < views.len() ==> slot(#[trigger] views[i]) < slot(#[trigger] views[j])
}

/// Whether every view in `views` is of a pin numbered below 16, as every
/// STM32 port has.
pub open spec fn low_numbers(views: Seq<GpioPinView>) -> bool {
    forall|i: int| 0 <= i < views.len() ==> #[trigger] views[i].pin_number < 16
}

/// Whether one of the first `n` views of `table` is of pin `number` of
/// `port`.
pub open spec fn among(table: Seq<GpioPinView>, n: int, port: GpioPort, number: u8) -> bool {
    exists|j: int| 0 <= j < n && #[trigger] table[j].port == port && table[j].pin_number == number
}

/// Whether the pins `pins` hold exactly the configurations `views`.
pub open spec fn holds(pins: Seq<GpioPin>, views: Seq<GpioPinView>) -> bool {
    &&& pins.len() == views.len()
    &&& forall|i: int| 0 <= i < pins.len() ==> #[trigger] pins[i].view() == views[i]
}

/// Appends `pin`, whose slot is past every slot held so far.
fn push_pin(pins: &mut Vec<GpioPin>, Ghost(views): Ghost<Seq<GpioPinView>>, pin: GpioPin) -> (grown: Ghost<
    Seq<GpioPinView>,
>)
    requires
        holds(old(pins)@, views),
        increasing_slots(views),
        low_numbers(views),
        views.len() == 0 || slot(views.last()) < slot(pin.view()),
        pin.view().pin_number < 16,
    ensures
        grown@ == views.push(pin.view()),
        holds(final(pins)@, grown@),
        increasing_slots(grown@),
        low_numbers(grown@),
{
    pins.push(pin);
    let ghost grown = views.push(pin.view());
    proof {
        assert forall|i: int, j: int| 0 <= i < j < grown.len() implies slot(#[trigger] grown[i]) < slot(
            #[trigger] grown[j],
        ) by {
            if j == grown.len() - 1 && i < j - 1 {
                assert(slot(views[i]) < slot(views[j - 1]));
            }
        }
    }
    Ghost(grown)
}

/// The board's pin map: every pin it assigns a role to, in port then
/// pin-number order.
pub fn board_pins() -> (pins: Vec<GpioPin>)
    ensures
        holds(pins@, board_pin_table()),
        increasing_slots(board_pin_table()),
        low_numbers(board_pin_table()),
        board_pin_table().len() == 34,
{
    let mut pins: Vec<GpioPin> = Vec::new();
    let g: Ghost<Seq<GpioPinView>> = Ghost(Seq::empty());
    let g = push_pin(&mut pins, g, GpioPin::analog(GpioPort::PA, 0));
    let g = push_pin(&mut pins, g, GpioPin::analog(GpioPort::PA, 1));
    let g = push_pin(&mut pins, g, GpioPin::analog(GpioPort::PA, 2));
    let g = push_pin(&mut pins, g, GpioPin::analog(GpioPort::PA, 3));
    let g = push_pin(&mut pins, g, GpioPin::analog(GpioPort::PA, 4));
    let g = push_pin(&mut pins, g, GpioPin::analog(GpioPort::PA, 5));
    let g = push_pin(&mut pins, g, GpioPin::analog(GpioPort::PA, 6));
    let g = push_pin(&mut pins, g, GpioPin::analog(GpioPort::PA, 7));
    let g = push_pin(&mut pins, g, GpioPin::alternate(GpioPort::PA, 8, 6).with_very_high_speed());
    let g = push_pin(&mut pins, g, GpioPin::alternate(GpioPort::PA, 9, 6).with_very_high_speed());
    let g = push_pin(&mut pins, g, GpioPin::alternate(GpioPort::PA, 10, 6).with_very_high_speed());
    let g = push_pin(&mut pins, g, GpioPin::alternate(GpioPort::PA, 11, 9));
    let g = push_pin(&mut pins, g, GpioPin::alternate(GpioPort::PA, 12, 6).with_very_high_speed());
    let g = push_pin(&mut pins, g, GpioPin::alternate(GpioPort::PA, 15, 1).with_pull_down());
    let g = push_pin(&mut pins, g, GpioPin::analog(GpioPort::PB, 0));
    let g = push_pin(&mut pins, g, GpioPin::analog(GpioPort::PB, 1));
    let g = push_pin(&mut pins, g, GpioPin::analog(GpioPort::PB, 2));
    let g = push_pin(&mut pins, g, GpioPin::alternate(GpioPort::PB, 3, 7));
    let g = push_pin(&mut pins, g, GpioPin::alternate(GpioPort::PB, 4, 7));
    let g = push_pin(&mut pins, g, GpioPin::input(GpioPort::PB, 5));
    let g = push_pin(&mut pins, g, GpioPin::alternate(GpioPort::PB, 6, 2));
    let g = push_pin(&mut pins, g, GpioPin::alternate(GpioPort::PB, 7, 2));
    let g = push_pin(&mut pins, g, GpioPin::alternate(GpioPort::PB, 8, 2));
    let g = push_pin(&mut pins, g, GpioPin::alternate(GpioPort::PB, 9, 9).with_high_speed());
    let g = push_pin(&mut pins, g, GpioPin::analog(GpioPort::PB, 11));
    let g = push_pin(&mut pins, g, GpioPin::analog(GpioPort::PB, 12));
    let g = push_pin(&mut pins, g, GpioPin::analog(GpioPort::PB, 14));
    let g = push_pin(&mut pins, g, GpioPin::alternate(GpioPort::PB, 15, 4).with_very_high_speed());
    let g = push_pin(&mut pins, g, GpioPin::analog(GpioPort::PC, 4));
    let g = push_pin(&mut pins, g, GpioPin::output(GpioPort::PC, 6));
    let g = push_pin(&mut pins, g, GpioPin::inverted_input(GpioPort::PC, 10).with_pull_up());
    let g = push_pin(&mut pins, g, GpioPin::inverted_output(GpioPort::PC, 11));
    let g = push_pin(&mut pins, g, GpioPin::alternate(GpioPort::PC, 13, 4).with_very_high_speed());
    let g = push_pin(&mut pins, g, GpioPin::output(GpioPort::PC, 14));
    proof {
        reveal(board_pin_table);
        assert(g@ =~= board_pin_table());
    }
    pins
}

/// The status LED.
pub fn status_pin() -> (pin: GpioPin)
    ensures
        pin.view() == board_pin_table()[29],
{
    proof {
        reveal(board_pin_table);
    }
    GpioPin::output(GpioPort::PC, 6)
}

/// The user button (pressed pulls the pin low).
pub fn button_pin() -> (pin: GpioPin)
    ensures
        pin.view() == board_pin_table()[30],
{
    proof {
        reveal(board_pin_table);
    }
    GpioPin::inverted_input(GpioPort::PC, 10).with_pull_up()
}

/// The potentiometer.
pub fn potentiometer_pin() -> (pin: GpioPin)
    ensures
        pin.view() == board_pin_table()[25],
{
    proof {
        reveal(board_pin_table);
    }
    GpioPin::analog(GpioPort::PB, 12)
}

/// The drivers of the board's peripherals.
pub struct BoardPeripherals<M> {
    pub gpio: Gpio,
    pub clock_provider: ClockProvider,
    pub dma: Dma,
    pub adc1: Adc,
    pub quadrature: Quadrature,
    pub pwm1: Pwm,
    /// The core peripherals handed to [`initialize`].
    pub mcu_interface: M,
}

/// The state every pin of the simulated chip starts in.
pub open spec fn reset_state() -> PinState {
    PinState { mode: GpioMode::Analog, physical_high: false }
}

/// Whether pin `number` of `port` is one of the board's pins.
pub open spec fn on_board(port: GpioPort, number: u8) -> bool {
    among(board_pin_table(), 34, port, number)
}

/// Brings the board up on the simulated peripherals: claims and configures
/// every pin of the pin map, starts the clock at [`MCU_FREQUENCY`], routes
/// DMA2 channel 1 to ADC1's request, and creates the ADC1, TIM4 quadrature
/// and TIM1 PWM drivers, all closed.
pub fn initialize<M>(mcu_interface: M) -> (board: BoardPeripherals<M>)
    ensures
        forall|i: int|
            0 <= i < 34 ==> {
                let pin = #[trigger] board_pin_table()[i];
                &&& board.gpio.chip().pin_state(pin.port, pin.pin_number) == configured_state(
                    reset_state(),
                    pin.mode,
                    pin.pull,
                )
                &&& board.gpio.chip().claimed(pin.port, pin.pin_number)
            },
        forall|port: GpioPort, number: u8|
            !on_board(port, number) ==> #[trigger] board.gpio.chip().pin_state(port, number)
                == reset_state() && !board.gpio.chip().claimed(port, number),
        board.clock_provider.simulation().frequency() == MCU_FREQUENCY,
        board.clock_provider.simulation().counter() == 0,
        board.clock_provider.simulation().elapsed() == 0,
        forall|c: DmaChannel| #[trigger]
            board.dma.route(c) == if c == (DmaChannel { instance: DmaInstance::Stm32g4Dma2, channel: 1 }) {
                Some(DmaRequest::Stm32g4DmamuxReqAdc1)
            } else {
                None
            },
        forall|c: DmaChannel| #[trigger]
            board.dma.state().claimed(c) == (c == DmaChannel {
                instance: DmaInstance::Stm32g4Dma2,
                channel: 1,
            }),
        board.adc1.state().opened_with() is None,
        board.adc1.state().instance() == AdcInstance::Stm32g4Adc1,
        !board.quadrature.state().opened(),
        board.pwm1.state().opened_with() is None,
        board.pwm1.state().timer() == PwmTimer::Stm32g4Tim1,
        board.mcu_interface == mcu_interface,
{
    let pins = board_pins();
    let mut gpio = Gpio::new();
    let ghost table = board_pin_table();
    let mut i: usize = 0;
    while i < pins.len()
        invariant
            holds(pins@, table),
            table == board_pin_table(),
            table.len() == 34,
            increasing_slots(table),
            low_numbers(table),
            i <= pins@.len(),
            forall|j: int|
                0 <= j < i ==> {
                    let pin = #[trigger] table[j];
                    &&& gpio.chip().pin_state(pin.port, pin.pin_number) == configured_state(
                        reset_state(),
                        pin.mode,
                        pin.pull,
                    )
                    &&& gpio.chip().claimed(pin.port, pin.pin_number)
                },
            forall|port: GpioPort, number: u8|
                !among(table, i as int, port, number) ==> #[trigger] gpio.chip().pin_state(
                    port,
                    number,
                ) == reset_state() && !gpio.chip().claimed(port, number),
        decreases pins@.len() - i,
    {
        let pin = pins[i];
        proof {
            assert(pin.view() == table[i as int]);
            assert forall|j: int| 0 <= j < i implies !(#[trigger] table[j].port == pin.view().port
                && table[j].pin_number == pin.view().pin_number) by {
                assert(slot(table[j]) < slot(table[i as int]));
            }
        }
        let ghost before = gpio.chip();
        gpio.configure(pin);
        gpio.register(pin.port(), pin.pin_number());
        proof {
            assert forall|port: GpioPort, number: u8|
                !among(table, i + 1, port, number) implies #[trigger] gpio.chip().pin_state(
                port,
                number,
            ) == reset_state() && !gpio.chip().claimed(port, number) by {
                if among(table, i as int, port, number) {
                    let j = choose|j: int|
                        0 <= j < i && #[trigger] table[j].port == port && table[j].pin_number == number;
                    assert(among(table, i + 1, port, number));
                }
                if port == pin.view().port && number == pin.view().pin_number {
                    assert(table[i as int].port == port);
                    assert(among(table, i + 1, port, number));
                }
            }
        }
        i += 1;
    }
    let clock_provider = ClockProvider::new((), MCU_FREQUENCY);
    let mut dma = Dma::new();
    dma.claim_channel(Dma2Channel1);
    dma.allocate(
        DmaChannel::new(DmaInstance::Stm32g4Dma2, 1),
        DmaRequest::Stm32g4DmamuxReqAdc1,
    );
    let adc1 = Adc::new(claim_adc(Peri::new_unchecked(Adc1)), DmaRequest::Stm32g4DmamuxReqAdc1);
    let quadrature = Quadrature::new(claim_quadrature_timer(Peri::new_unchecked(Tim4)));
    proof {
        lemma_token_names();
    }
    let pwm1 = Pwm::new(claim_pwm_timer(Peri::new_unchecked(Tim1)), MCU_FREQUENCY);
    BoardPeripherals { gpio, clock_provider, dma, adc1, quadrature, pwm1, mcu_interface }
}


/// The board's pin map, as the board's schematic wires it: the six TIM1
/// phase outputs in their timer alternate functions (PA8, PA9, PA10 and
/// PA12 in AF6; PC13 and PB15 in AF4) at very high speed, the current,
/// back-EMF, bus-voltage, potentiometer and temperature sense pins
/// analog, the TIM4 encoder inputs in AF2, FDCAN1 in AF9, USART2 in AF7,
/// the PWM input in AF1 with a pull-down, the status LED and CAN
/// termination as outputs, the CAN transceiver shutdown as an inverted
/// output and the button as an inverted input with a pull-up. These are
/// all of the board's 34 pins.
pub proof fn law_board_pin_map()
    ensures
        board_pin_table().len() == 34,
        board_pin_table().contains(GpioPinView { port: GpioPort::PA, pin_number: 8, mode: GpioMode::AlternateMode, pull: GpioPull::Floating, speed: GpioSpeed::VeryHigh, alternate_function: 6 }),
        board_pin_table().contains(GpioPinView { port: GpioPort::PC, pin_number: 13, mode: GpioMode::AlternateMode, pull: GpioPull::Floating, speed: GpioSpeed::VeryHigh, alternate_function: 4 }),
        board_pin_table().contains(GpioPinView { port: GpioPort::PA, pin_number: 9, mode: GpioMode::AlternateMode, pull: GpioPull::Floating, speed: GpioSpeed::VeryHigh, alternate_function: 6 }),
        board_pin_table().contains(GpioPinView { port: GpioPort::PA, pin_number: 12, mode: GpioMode::AlternateMode, pull: GpioPull::Floating, speed: GpioSpeed::VeryHigh, alternate_function: 6 }),
        board_pin_table().contains(GpioPinView { port: GpioPort::PA, pin_number: 10, mode: GpioMode::AlternateMode, pull: GpioPull::Floating, speed: GpioSpeed::VeryHigh, alternate_function: 6 }),
        board_pin_table().contains(GpioPinView { port: GpioPort::PB, pin_number: 15, mode: GpioMode::AlternateMode, pull: GpioPull::Floating, speed: GpioSpeed::VeryHigh, alternate_function: 4 }),
        board_pin_table().contains(GpioPinView { port: GpioPort::PA, pin_number: 1, mode: GpioMode::Analog, pull: GpioPull::Floating, speed: GpioSpeed::Low, alternate_function: 0 }),
        board_pin_table().contains(GpioPinView { port: GpioPort::PA, pin_number: 3, mode: GpioMode::Analog, pull: GpioPull::Floating, speed: GpioSpeed::Low, alternate_function: 0 }),
        board_pin_table().contains(GpioPinView { port: GpioPort::PA, pin_number: 2, mode: GpioMode::Analog, pull: GpioPull::Floating, speed: GpioSpeed::Low, alternate_function: 0 }),
        board_pin_table().contains(GpioPinView { port: GpioPort::PA, pin_number: 7, mode: GpioMode::Analog, pull: GpioPull::Floating, speed: GpioSpeed::Low, alternate_function: 0 }),
        board_pin_table().contains(GpioPinView { port: GpioPort::PA, pin_number: 5, mode: GpioMode::Analog, pull: GpioPull::Floating, speed: GpioSpeed::Low, alternate_function: 0 }),
        board_pin_table().contains(GpioPinView { port: GpioPort::PA, pin_number: 6, mode: GpioMode::Analog, pull: GpioPull::Floating, speed: GpioSpeed::Low, alternate_function: 0 }),
        board_pin_table().contains(GpioPinView { port: GpioPort::PB, pin_number: 0, mode: GpioMode::Analog, pull: GpioPull::Floating, speed: GpioSpeed::Low, alternate_function: 0 }),
        board_pin_table().contains(GpioPinView { port: GpioPort::PB, pin_number: 2, mode: GpioMode::Analog, pull: GpioPull::Floating, speed: GpioSpeed::Low, alternate_function: 0 }),
        board_pin_table().contains(GpioPinView { port: GpioPort::PA, pin_number: 4, mode: GpioMode::Analog, pull: GpioPull::Floating, speed: GpioSpeed::Low, alternate_function: 0 }),
        board_pin_table().contains(GpioPinView { port: GpioPort::PC, pin_number: 4, mode: GpioMode::Analog, pull: GpioPull::Floating, speed: GpioSpeed::Low, alternate_function: 0 }),
        board_pin_table().contains(GpioPinView { port: GpioPort::PB, pin_number: 11, mode: GpioMode::Analog, pull: GpioPull::Floating, speed: GpioSpeed::Low, alternate_function: 0 }),
        board_pin_table().contains(GpioPinView { port: GpioPort::PB, pin_number: 5, mode: GpioMode::Input, pull: GpioPull::Floating, speed: GpioSpeed::Low, alternate_function: 0 }),
        board_pin_table().contains(GpioPinView { port: GpioPort::PB, pin_number: 6, mode: GpioMode::AlternateMode, pull: GpioPull::Floating, speed: GpioSpeed::Low, alternate_function: 2 }),
        board_pin_table().contains(GpioPinView { port: GpioPort::PB, pin_number: 7, mode: GpioMode::AlternateMode, pull: GpioPull::Floating, speed: GpioSpeed::Low, alternate_function: 2 }),
        board_pin_table().contains(GpioPinView { port: GpioPort::PB, pin_number: 8, mode: GpioMode::AlternateMode, pull: GpioPull::Floating, speed: GpioSpeed::Low, alternate_function: 2 }),
        board_pin_table().contains(GpioPinView { port: GpioPort::PA, pin_number: 11, mode: GpioMode::AlternateMode, pull: GpioPull::Floating, speed: GpioSpeed::Low, alternate_function: 9 }),
        board_pin_table().contains(GpioPinView { port: GpioPort::PB, pin_number: 9, mode: GpioMode::AlternateMode, pull: GpioPull::Floating, speed: GpioSpeed::High, alternate_function: 9 }),
        board_pin_table().contains(GpioPinView { port: GpioPort::PC, pin_number: 14, mode: GpioMode::Output, pull: GpioPull::Floating, speed: GpioSpeed::Low, alternate_function: 0 }),
        board_pin_table().contains(GpioPinView { port: GpioPort::PC, pin_number: 11, mode: GpioMode::InvertedOutput, pull: GpioPull::Floating, speed: GpioSpeed::Low, alternate_function: 0 }),
        board_pin_table().contains(GpioPinView { port: GpioPort::PB, pin_number: 3, mode: GpioMode::AlternateMode, pull: GpioPull::Floating, speed: GpioSpeed::Low, alternate_function: 7 }),
        board_pin_table().contains(GpioPinView { port: GpioPort::PB, pin_number: 4, mode: GpioMode::AlternateMode, pull: GpioPull::Floating, speed: GpioSpeed::Low, alternate_function: 7 }),
        board_pin_table().contains(GpioPinView { port: GpioPort::PA, pin_number: 15, mode: GpioMode::AlternateMode, pull: GpioPull::Down, speed: GpioSpeed::Low, alternate_function: 1 }),
        board_pin_table().contains(GpioPinView { port: GpioPort::PA, pin_number: 0, mode: GpioMode::Analog, pull: GpioPull::Floating, speed: GpioSpeed::Low, alternate_function: 0 }),
        board_pin_table().contains(GpioPinView { port: GpioPort::PB, pin_number: 12, mode: GpioMode::Analog, pull: GpioPull::Floating, speed: GpioSpeed::Low, alternate_function: 0 }),
        board_pin_table().contains(GpioPinView { port: GpioPort::PB, pin_number: 14, mode: GpioMode::Analog, pull: GpioPull::Floating, speed: GpioSpeed::Low, alternate_function: 0 }),
        board_pin_table().contains(GpioPinView { port: GpioPort::PC, pin_number: 6, mode: GpioMode::Output, pull: GpioPull::Floating, speed: GpioSpeed::Low, alternate_function: 0 }),
        board_pin_table().contains(GpioPinView { port: GpioPort::PC, pin_number: 10, mode: GpioMode::InvertedInput, pull: GpioPull::Up, speed: GpioSpeed::Low, alternate_function: 0 }),
        board_pin_table().contains(GpioPinView { port: GpioPort::PB, pin_number: 1, mode: GpioMode::Analog, pull: GpioPull::Floating, speed: GpioSpeed::Low, alternate_function: 0 }),
{
    reveal(board_pin_table);
    assert(board_pin_table()[8] == GpioPinView { port: GpioPort::PA, pin_number: 8, mode: GpioMode::AlternateMode, pull: GpioPull::Floating, speed: GpioSpeed::VeryHigh, alternate_function: 6 });
    assert(board_pin_table()[32] == GpioPinView { port: GpioPort::PC, pin_number: 13, mode: GpioMode::AlternateMode, pull: GpioPull::Floating, speed: GpioSpeed::VeryHigh, alternate_function: 4 });
    assert(board_pin_table()[9] == GpioPinView { port: GpioPort::PA, pin_number: 9, mode: GpioMode::AlternateMode, pull: GpioPull::Floating, speed: GpioSpeed::VeryHigh, alternate_function: 6 });
    assert(board_pin_table()[12] == GpioPinView { port: GpioPort::PA, pin_number: 12, mode: GpioMode::AlternateMode, pull: GpioPull::Floating, speed: GpioSpeed::VeryHigh, alternate_function: 6 });
    assert(board_pin_table()[10] == GpioPinView { port: GpioPort::PA, pin_number: 10, mode: GpioMode::AlternateMode, pull: GpioPull::Floating, speed: GpioSpeed::VeryHigh, alternate_function: 6 });
    assert(board_pin_table()[27] == GpioPinView { port: GpioPort::PB, pin_number: 15, mode: GpioMode::AlternateMode, pull: GpioPull::Floating, speed: GpioSpeed::VeryHigh, alternate_function: 4 });
    assert(board_pin_table()[1] == GpioPinView { port: GpioPort::PA, pin_number: 1, mode: GpioMode::Analog, pull: GpioPull::Floating, speed: GpioSpeed::Low, alternate_function: 0 });
    assert(board_pin_table()[3] == GpioPinView { port: GpioPort::PA, pin_number: 3, mode: GpioMode::Analog, pull: GpioPull::Floating, speed: GpioSpeed::Low, alternate_function: 0 });
    assert(board_pin_table()[2] == GpioPinView { port: GpioPort::PA, pin_number: 2, mode: GpioMode::Analog, pull: GpioPull::Floating, speed: GpioSpeed::Low, alternate_function: 0 });
    assert(board_pin_table()[7] == GpioPinView { port: GpioPort::PA, pin_number: 7, mode: GpioMode::Analog, pull: GpioPull::Floating, speed: GpioSpeed::Low, alternate_function: 0 });
    assert(board_pin_table()[5] == GpioPinView { port: GpioPort::PA, pin_number: 5, mode: GpioMode::Analog, pull: GpioPull::Floating, speed: GpioSpeed::Low, alternate_function: 0 });
    assert(board_pin_table()[6] == GpioPinView { port: GpioPort::PA, pin_number: 6, mode: GpioMode::Analog, pull: GpioPull::Floating, speed: GpioSpeed::Low, alternate_function: 0 });
    assert(board_pin_table()[14] == GpioPinView { port: GpioPort::PB, pin_number: 0, mode: GpioMode::Analog, pull: GpioPull::Floating, speed: GpioSpeed::Low, alternate_function: 0 });
    assert(board_pin_table()[16] == GpioPinView { port: GpioPort::PB, pin_number: 2, mode: GpioMode::Analog, pull: GpioPull::Floating, speed: GpioSpeed::Low, alternate_function: 0 });
    assert(board_pin_table()[4] == GpioPinView { port: GpioPort::PA, pin_number: 4, mode: GpioMode::Analog, pull: GpioPull::Floating, speed: GpioSpeed::Low, alternate_function: 0 });
    assert(board_pin_table()[28] == GpioPinView { port: GpioPort::PC, pin_number: 4, mode: GpioMode::Analog, pull: GpioPull::Floating, speed: GpioSpeed::Low, alternate_function: 0 });
    assert(board_pin_table()[24] == GpioPinView { port: GpioPort::PB, pin_number: 11, mode: GpioMode::Analog, pull: GpioPull::Floating, speed: GpioSpeed::Low, alternate_function: 0 });
    assert(board_pin_table()[19] == GpioPinView { port: GpioPort::PB, pin_number: 5, mode: GpioMode::Input, pull: GpioPull::Floating, speed: GpioSpeed::Low, alternate_function: 0 });
    assert(board_pin_table()[20] == GpioPinView { port: GpioPort::PB, pin_number: 6, mode: GpioMode::AlternateMode, pull: GpioPull::Floating, speed: GpioSpeed::Low, alternate_function: 2 });
    assert(board_pin_table()[21] == GpioPinView { port: GpioPort::PB, pin_number: 7, mode: GpioMode::AlternateMode, pull: GpioPull::Floating, speed: GpioSpeed::Low, alternate_function: 2 });
    assert(board_pin_table()[22] == GpioPinView { port: GpioPort::PB, pin_number: 8, mode: GpioMode::AlternateMode, pull: GpioPull::Floating, speed: GpioSpeed::Low, alternate_function: 2 });
    assert(board_pin_table()[11] == GpioPinView { port: GpioPort::PA, pin_number: 11, mode: GpioMode::AlternateMode, pull: GpioPull::Floating, speed: GpioSpeed::Low, alternate_function: 9 });
    assert(board_pin_table()[23] == GpioPinView { port: GpioPort::PB, pin_number: 9, mode: GpioMode::AlternateMode, pull: GpioPull::Floating, speed: GpioSpeed::High, alternate_function: 9 });
    assert(board_pin_table()[33] == GpioPinView { port: GpioPort::PC, pin_number: 14, mode: GpioMode::Output, pull: GpioPull::Floating, speed: GpioSpeed::Low, alternate_function: 0 });
    assert(board_pin_table()[31] == GpioPinView { port: GpioPort::PC, pin_number: 11, mode: GpioMode::InvertedOutput, pull: GpioPull::Floating, speed: GpioSpeed::Low, alternate_function: 0 });
    assert(board_pin_table()[17] == GpioPinView { port: GpioPort::PB, pin_number: 3, mode: GpioMode::AlternateMode, pull: GpioPull::Floating, speed: GpioSpeed::Low, alternate_function: 7 });
    assert(board_pin_table()[18] == GpioPinView { port: GpioPort::PB, pin_number: 4, mode: GpioMode::AlternateMode, pull: GpioPull::Floating, speed: GpioSpeed::Low, alternate_function: 7 });
    assert(board_pin_table()[13] == GpioPinView { port: GpioPort::PA, pin_number: 15, mode: GpioMode::AlternateMode, pull: GpioPull::Down, speed: GpioSpeed::Low, alternate_function: 1 });
    assert(board_pin_table()[0] == GpioPinView { port: GpioPort::PA, pin_number: 0, mode: GpioMode::Analog, pull: GpioPull::Floating, speed: GpioSpeed::Low, alternate_function: 0 });
    assert(board_pin_table()[25] == GpioPinView { port: GpioPort::PB, pin_number: 12, mode: GpioMode::Analog, pull: GpioPull::Floating, speed: GpioSpeed::Low, alternate_function: 0 });
    assert(board_pin_table()[26] == GpioPinView { port: GpioPort::PB, pin_number: 14, mode: GpioMode::Analog, pull: GpioPull::Floating, speed: GpioSpeed::Low, alternate_function: 0 });
    assert(board_pin_table()[29] == GpioPinView { port: GpioPort::PC, pin_number: 6, mode: GpioMode::Output, pull: GpioPull::Floating, speed: GpioSpeed::Low, alternate_function: 0 });
    assert(board_pin_table()[30] == GpioPinView { port: GpioPort::PC, pin_number: 10, mode: GpioMode::InvertedInput, pull: GpioPull::Up, speed: GpioSpeed::Low, alternate_function: 0 });
    assert(board_pin_table()[15] == GpioPinView { port: GpioPort::PB, pin_number: 1, mode: GpioMode::Analog, pull: GpioPull::Floating, speed: GpioSpeed::Low, alternate_function: 0 });
}

} // verus!
