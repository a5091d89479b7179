//! A simulated GPIO chip for host-side testing: every pin of every port has
//! a mode and a physical level. [`Gpio`] is the firmware-facing driver; its
//! [`FakeGpio`] (reached through [`Gpio::fake`]/[`Gpio::fake_mut`]) lets a
//! test observe what firmware did or force a pin's level, as external
//! hardware would.
use vstd::prelude::*;
use crate::clock::ClockTrait;
use crate::gpio::{GpioMode, GpioPin, GpioPinView, GpioPort, GpioPull, GpioTrait, PinToken};

verus! {

/// Number of ports simulated (`PA..=PJ`).
pub const NUM_PORTS: usize = 10;

/// Pins simulated per port (a pin number is a `u8`).
pub const PINS_PER_PORT: usize = 256;

/// One simulated pin: its configured mode and its physical level.
#[derive(Debug, Clone, Copy, PartialEq, Eq, Structural)]
pub struct PinState {
    pub mode: GpioMode,
    pub physical_high: bool,
}

/// The logical level of a pin in `state`: its physical level, inverted in
/// the inverted modes.
pub open spec fn logical_level(state: PinState) -> bool {
    if state.mode.is_inverted() {
        !state.physical_high
    } else {
        state.physical_high
    }
}

/// The index of pin `number` of `port` in the simulated chip.
pub open spec fn pin_index(port: GpioPort, number: u8) -> int {
    port.code() * PINS_PER_PORT + number
}

/// The state after [`GpioTrait::configure`] applies `pin`'s configuration:
/// the new mode, and the physical level a pull resistor forces. With no pull
/// resistor an output pin is driven low and any other pin keeps its level.
pub open spec fn configured_state(state: PinState, pin_mode: GpioMode, pull: GpioPull) -> PinState {
    PinState {
        mode: pin_mode,
        physical_high: match pull {
            GpioPull::Up => true,
            GpioPull::Down => false,
            GpioPull::Floating => if pin_mode == GpioMode::Output || pin_mode == GpioMode::InvertedOutput {
                false
            } else {
                state.physical_high
            },
        },
    }
}

/// The state after firmware drives the logical level `value`: only output
/// pins change.
pub open spec fn driven_state(state: PinState, value: bool) -> PinState {
    match state.mode {
        GpioMode::Output => PinState { physical_high: value, ..state },
        GpioMode::InvertedOutput => PinState { physical_high: !value, ..state },
        _ => state,
    }
}

/// The state after external hardware forces the logical level `value`:
/// every digital pin changes; analog and alternate-function pins do not.
pub open spec fn forced_state(state: PinState, value: bool) -> PinState {
    match state.mode {
        GpioMode::AlternateMode | GpioMode::Analog => state,
        GpioMode::InvertedInput | GpioMode::InvertedOutput => PinState {
            physical_high: !value,
            ..state
        },
        _ => PinState { physical_high: value, ..state },
    }
}

/// The simulated chip: the state of every pin of every port, and which pins
/// were claimed.
pub struct FakeGpio {
    pins: [PinState; 2560],
    registered: [bool; 2560],
}

impl FakeGpio {

    /// The state of pin `number` of `port`.
    pub closed spec fn pin_state(&self, port: GpioPort, number: u8) -> PinState {
        self.pins@[pin_index(port, number)]
    }

    /// Whether pin `number` of `port` was claimed.
    pub closed spec fn claimed(&self, port: GpioPort, number: u8) -> bool {
        self.registered@[pin_index(port, number)]
    }

    fn index(pin: GpioPin) -> (index: usize)
        ensures
            index == pin_index(pin.view().port, pin.view().pin_number),
            index < NUM_PORTS * PINS_PER_PORT,
    {
        let port = pin.port().index() as usize;
        let number = pin.pin_number() as usize;
        port * PINS_PER_PORT + number
    }

    /// Forces the pin's physical state as external hardware driving it would
    /// (e.g. a button press on an input pin), regardless of mode — except
    /// analog and alternate-function pins, which have no digital state to
    /// force and stay unchanged.
    pub fn set(&mut self, pin: GpioPin, value: bool)
        ensures
            forall|port: GpioPort, number: u8|
                #[trigger] final(self).pin_state(port, number) == if port == pin.view().port && number
                    == pin.view().pin_number {
                    forced_state(old(self).pin_state(port, number), value)
                } else {
                    old(self).pin_state(port, number)
                },
            forall|port: GpioPort, number: u8|
                #[trigger] final(self).claimed(port, number) == old(self).claimed(port, number),
    {
        let i = Self::index(pin);
        let state = self.pins[i];
        let new_state = match state.mode {
            GpioMode::AlternateMode | GpioMode::Analog => state,
            GpioMode::InvertedInput | GpioMode::InvertedOutput => PinState {
                physical_high: !value,
                ..state
            },
            GpioMode::Input | GpioMode::Output => PinState { physical_high: value, ..state },
        };
        self.pins[i] = new_state;
        proof {
            assert forall|port: GpioPort, number: u8|
                #[trigger] self.pin_state(port, number) == if port == pin.view().port && number
                    == pin.view().pin_number {
                    forced_state(old(self).pin_state(port, number), value)
                } else {
                    old(self).pin_state(port, number)
                } by {
                lemma_pin_index_injective(port, number, pin.view().port, pin.view().pin_number);
            }
        }
    }

    /// Reads the pin's current logical level, regardless of mode.
    pub fn get(&self, pin: GpioPin) -> (level: bool)
        ensures
            level == logical_level(self.pin_state(pin.view().port, pin.view().pin_number)),
    {
        let state = self.pins[Self::index(pin)];
        match state.mode {
            GpioMode::InvertedInput | GpioMode::InvertedOutput => !state.physical_high,
            _ => state.physical_high,
        }
    }

    /// Whether `pin` was claimed via [`Gpio::claim_pin`]. Claims are kept as
    /// a 32-bit mask per port, so only pins numbered below 32 can be asked.
    pub fn pin_registered(&self, pin: GpioPin) -> (registered: bool)
        requires
            pin.view().pin_number < 32,
        ensures
            registered == self.claimed(pin.view().port, pin.view().pin_number),
    {
        self.registered[Self::index(pin)]
    }
}

/// Distinct pins occupy distinct slots of the simulated chip.
proof fn lemma_pin_index_injective(p1: GpioPort, n1: u8, p2: GpioPort, n2: u8)
    ensures
        pin_index(p1, n1) == pin_index(p2, n2) <==> (p1 == p2 && n1 == n2),
        0 <= pin_index(p1, n1) < NUM_PORTS * PINS_PER_PORT,
{
}

/// A simulated GPIO driver. Only pins claimed via [`Gpio::claim_pin`] are
/// considered wired up; configuring any other pin still works.
pub struct Gpio {
    chip: FakeGpio,
    /// Every write made through the driver, in order.
    writes: Ghost<Seq<(GpioPinView, bool, Option<int>)>>,
}

impl Gpio {
    /// The simulated chip this driver drives.
    pub closed spec fn chip(&self) -> FakeGpio {
        self.chip
    }

    /// Creates a simulated chip with no pin claimed and every pin in analog
    /// mode at a low physical level, like a real chip's reset state.
    pub fn new() -> (gpio: Self)
        ensures
            forall|port: GpioPort, number: u8|
                #[trigger] gpio.chip().pin_state(port, number) == (PinState {
                    mode: GpioMode::Analog,
                    physical_high: false,
                }),
            forall|port: GpioPort, number: u8| !#[trigger] gpio.chip().claimed(port, number),
            gpio.writes() == Seq::<(GpioPinView, bool, Option<int>)>::empty(),
    {
        let pins = [PinState { mode: GpioMode::Analog, physical_high: false }; 2560];
        let registered = [false; 2560];
        let gpio = Gpio { chip: FakeGpio { pins, registered }, writes: Ghost(Seq::empty()) };
        proof {
            assert forall|port: GpioPort, number: u8|
                #[trigger] gpio.chip().pin_state(port, number) == (PinState {
                    mode: GpioMode::Analog,
                    physical_high: false,
                }) by {
                lemma_pin_index_injective(port, number, port, number);
            }
            assert forall|port: GpioPort, number: u8| !#[trigger] gpio.chip().claimed(port, number) by {
                lemma_pin_index_injective(port, number, port, number);
            }
        }
        gpio
    }

    /// The test's view onto the simulated chip.
    pub fn fake(&self) -> (fake: &FakeGpio)
        ensures
            *fake == self.chip(),
    {
        &self.chip
    }

    /// The test's handle onto the simulated chip, to force pin levels.
    pub fn fake_mut(&mut self) -> (fake: &mut FakeGpio)
        ensures
            *fake == old(self).chip(),
            final(self).chip() == *final(fake),
            final(self).writes() == old(self).writes(),
    {
        &mut self.chip
    }

    /// Claims a pin-resource handle and registers its pin (from
    /// [`PinToken`]) as wired up. Claims are kept as a 32-bit mask per port,
    /// so only pins numbered below 32 can be claimed.
    pub fn claim_pin<T: PinToken>(&mut self, pin: T)
        requires
            T::NUMBER < 32,
        ensures
            forall|port: GpioPort, number: u8|
                #[trigger] final(self).chip().claimed(port, number) == (old(self).chip().claimed(
                    port,
                    number,
                ) || (port == T::PORT && number == T::NUMBER)),
            forall|port: GpioPort, number: u8|
                #[trigger] final(self).chip().pin_state(port, number) == old(self).chip().pin_state(
                    port,
                    number,
                ),
            final(self).writes() == old(self).writes(),
    {
        self.register(T::PORT, T::NUMBER);
    }

    /// Registers pin `number` of `port` as wired up.
    pub(crate) fn register(&mut self, port: GpioPort, number: u8)
        requires
            number < 32,
        ensures
            forall|p: GpioPort, n: u8|
                #[trigger] final(self).chip().claimed(p, n) == (old(self).chip().claimed(p, n) || (p
                    == port && n == number)),
            forall|p: GpioPort, n: u8|
                #[trigger] final(self).chip().pin_state(p, n) == old(self).chip().pin_state(p, n),
            final(self).writes() == old(self).writes(),
    {
        let i = port.index() as usize * PINS_PER_PORT + number as usize;
        self.chip.registered[i] = true;
        proof {
            assert forall|p: GpioPort, n: u8|
                #[trigger] self.chip().claimed(p, n) == (old(self).chip().claimed(p, n) || (p == port
                    && n == number)) by {
                lemma_pin_index_injective(p, n, port, number);
            }
        }
    }
}

impl GpioTrait for Gpio {
    open spec fn pin_mode(&self, port: GpioPort, number: u8) -> GpioMode {
        self.chip().pin_state(port, number).mode
    }

    open spec fn physical_high(&self, port: GpioPort, number: u8) -> bool {
        self.chip().pin_state(port, number).physical_high
    }

    closed spec fn writes(&self) -> Seq<(GpioPinView, bool, Option<int>)> {
        self.writes@
    }

    /// Applies `pin`'s mode, and the level its pull resistor forces.
    fn configure(&mut self, pin: GpioPin)
        ensures
            forall|port: GpioPort, number: u8|
                #[trigger] final(self).chip().pin_state(port, number) == if port == pin.view().port
                    && number == pin.view().pin_number {
                    configured_state(old(self).chip().pin_state(port, number), pin.view().mode, pin.view().pull)
                } else {
                    old(self).chip().pin_state(port, number)
                },
            forall|port: GpioPort, number: u8|
                #[trigger] final(self).chip().claimed(port, number) == old(self).chip().claimed(port, number),
    {
        let i = FakeGpio::index(pin);
        let state = self.chip.pins[i];
        let physical_high = match pin.pull() {
            GpioPull::Up => true,
            GpioPull::Down => false,
            GpioPull::Floating => match pin.mode() {
                GpioMode::Output | GpioMode::InvertedOutput => false,
                _ => state.physical_high,
            },
        };
        self.chip.pins[i] = PinState { mode: pin.mode(), physical_high };
        proof {
            assert forall|port: GpioPort, number: u8|
                #[trigger] self.chip().pin_state(port, number) == if port == pin.view().port && number
                    == pin.view().pin_number {
                    configured_state(old(self).chip().pin_state(port, number), pin.view().mode, pin.view().pull)
                } else {
                    old(self).chip().pin_state(port, number)
                } by {
                lemma_pin_index_injective(port, number, pin.view().port, pin.view().pin_number);
            }
        }
    }

    /// Drives the pin like real hardware does: only `Output` /
    /// `InvertedOutput` pins are written, every other mode is left as it is.
    fn set(&mut self, pin: GpioPin, logical: bool)
        ensures
            forall|port: GpioPort, number: u8|
                #[trigger] final(self).chip().pin_state(port, number) == if port == pin.view().port
                    && number == pin.view().pin_number {
                    driven_state(old(self).chip().pin_state(port, number), logical)
                } else {
                    old(self).chip().pin_state(port, number)
                },
            forall|port: GpioPort, number: u8|
                #[trigger] final(self).chip().claimed(port, number) == old(self).chip().claimed(port, number),
    {
        let i = FakeGpio::index(pin);
        let state = self.chip.pins[i];
        let new_state = match state.mode {
            GpioMode::Output => PinState { physical_high: logical, ..state },
            GpioMode::InvertedOutput => PinState { physical_high: !logical, ..state },
            _ => state,
        };
        self.chip.pins[i] = new_state;
        proof {
            self.writes@ = self.writes@.push((pin.view(), logical, None::<int>));
            assert forall|port: GpioPort, number: u8|
                #[trigger] self.chip().pin_state(port, number) == if port == pin.view().port && number
                    == pin.view().pin_number {
                    driven_state(old(self).chip().pin_state(port, number), logical)
                } else {
                    old(self).chip().pin_state(port, number)
                } by {
                lemma_pin_index_injective(port, number, pin.view().port, pin.view().pin_number);
            }
        }
    }

    fn set_at<C: ClockTrait>(&mut self, pin: GpioPin, logical: bool, clock: &C) {
        self.set(pin, logical);
        proof {
            let n = self.writes@.len() - 1;
            self.writes@ = self.writes@.update(n, (pin.view(), logical, Some(clock.uptime_at(clock.counter()))));
            assert(self.writes@ =~= old(self).writes@.push(
                (pin.view(), logical, Some(clock.uptime_at(clock.counter()))),
            ));
        }
    }

    fn get(&self, pin: GpioPin) -> (level: bool)
        ensures
            level == logical_level(self.chip().pin_state(pin.view().port, pin.view().pin_number)),
    {
        self.chip.get(pin)
    }
}

/// Driving an output pin reads back the driven level.
pub proof fn law_driven_output_reads_back(state: PinState, value: bool)
    requires
        state.mode == GpioMode::Output || state.mode == GpioMode::InvertedOutput,
    ensures
        logical_level(driven_state(state, value)) == value,
{
}

/// Driving a pin that is not an output changes nothing.
pub proof fn law_driving_a_non_output_is_a_no_op(state: PinState, value: bool)
    requires
        state.mode != GpioMode::Output,
        state.mode != GpioMode::InvertedOutput,
    ensures
        driven_state(state, value) == state,
{
}

/// Forcing a digital pin's level from outside reads back the forced level.
pub proof fn law_forced_digital_pin_reads_back(state: PinState, value: bool)
    requires
        state.mode != GpioMode::Analog,
        state.mode != GpioMode::AlternateMode,
    ensures
        logical_level(forced_state(state, value)) == value,
{
}

/// A pull-up idles a pin physically high and a pull-down physically low,
/// whatever its level before; with no pull resistor an output pin is driven
/// low and any other pin keeps its level.
pub proof fn law_pull_resistors_set_the_physical_level(state: PinState, mode: GpioMode)
    ensures
        configured_state(state, mode, GpioPull::Up).physical_high,
        !configured_state(state, mode, GpioPull::Down).physical_high,
        mode == GpioMode::Output || mode == GpioMode::InvertedOutput ==> !configured_state(
            state,
            mode,
            GpioPull::Floating,
        ).physical_high,
        mode != GpioMode::Output && mode != GpioMode::InvertedOutput ==> configured_state(
            state,
            mode,
            GpioPull::Floating,
        ).physical_high == state.physical_high,
        configured_state(state, mode, GpioPull::Up).mode == mode,
{
}

} // verus!
