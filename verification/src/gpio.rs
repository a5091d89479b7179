//! Hardware-agnostic GPIO API: a bit-packed pin configuration and the
//! interface every GPIO driver implements.
use vstd::prelude::*;
use crate::clock::ClockTrait;

verus! {

/// Output drive strength / slew rate.
#[derive(Debug, Clone, Copy, PartialEq, Eq, Structural)]
pub enum GpioSpeed {
    Low,
    Medium,
    High,
    VeryHigh,
}

/// GPIO port identifier.
#[derive(Debug, Clone, Copy, PartialEq, Eq, Structural)]
pub enum GpioPort {
    PA,
    PB,
    PC,
    PD,
    PE,
    PF,
    PG,
    PH,
    PI,
    PJ,
}

/// Pull-up / pull-down resistor configuration. The direction relates to the
/// physical pin level rather than the logical value: a disconnected pin
/// configured with `Up` reads as low (false) in an inverted mode.
#[derive(Debug, Clone, Copy, PartialEq, Eq, Structural)]
pub enum GpioPull {
    Floating,
    Up,
    Down,
}

/// Pin direction / function. The `Inverted*` variants flip the logical
/// value seen through [`GpioTrait::set`] / [`GpioTrait::get`] relative to
/// the physical pin level.
#[derive(Debug, Clone, Copy, PartialEq, Eq, Structural)]
pub enum GpioMode {
    Input,
    InvertedInput,
    Output,
    InvertedOutput,
    AlternateMode,
    Analog,
}

/// Bit position of the pin number field (8 bits).
pub const PIN_NUMBER_SHIFT: u32 = 0;
/// Bit position of the port field (4 bits).
pub const PORT_SHIFT: u32 = 8;
/// Bit position of the mode field (3 bits).
pub const MODE_SHIFT: u32 = 12;
/// Bit position of the pull field (2 bits).
pub const PULL_SHIFT: u32 = 15;
/// Bit position of the speed field (2 bits).
pub const SPEED_SHIFT: u32 = 17;
/// Bit position of the alternate-function field (4 bits).
pub const AF_SHIFT: u32 = 19;

/// Largest alternate-function index a pin can hold (4 bits).
pub const AF_MASK: u32 = 15;

impl GpioSpeed {
    /// The field encoding of this speed.
    pub open spec fn code(self) -> u32 {
        match self {
            GpioSpeed::Low => 0,
            GpioSpeed::Medium => 1,
            GpioSpeed::High => 2,
            GpioSpeed::VeryHigh => 3,
        }
    }

    fn bits(self) -> (bits: u32)
        ensures
            bits == self.code(),
    {
        match self {
            GpioSpeed::Low => 0,
            GpioSpeed::Medium => 1,
            GpioSpeed::High => 2,
            GpioSpeed::VeryHigh => 3,
        }
    }

    /// The speed a field encoding stands for.
    pub open spec fn decode(v: u32) -> GpioSpeed {
        if v == 0 {
            GpioSpeed::Low
        } else if v == 1 {
            GpioSpeed::Medium
        } else if v == 2 {
            GpioSpeed::High
        } else {
            GpioSpeed::VeryHigh
        }
    }

    fn from_bits(v: u32) -> (speed: GpioSpeed)
        requires
            v < 4,
        ensures
            speed == GpioSpeed::decode(v),
    {
        if v == 0 {
            GpioSpeed::Low
        } else if v == 1 {
            GpioSpeed::Medium
        } else if v == 2 {
            GpioSpeed::High
        } else {
            GpioSpeed::VeryHigh
        }
    }
}

impl GpioPort {
    /// The field encoding of this port.
    pub open spec fn code(self) -> u32 {
        match self {
            GpioPort::PA => 0,
            GpioPort::PB => 1,
            GpioPort::PC => 2,
            GpioPort::PD => 3,
            GpioPort::PE => 4,
            GpioPort::PF => 5,
            GpioPort::PG => 6,
            GpioPort::PH => 7,
            GpioPort::PI => 8,
            GpioPort::PJ => 9,
        }
    }

    /// The port's index (`PA` is 0, ..., `PJ` is 9).
    pub fn index(self) -> (index: u32)
        ensures
            index == self.code(),
    {
        match self {
            GpioPort::PA => 0,
            GpioPort::PB => 1,
            GpioPort::PC => 2,
            GpioPort::PD => 3,
            GpioPort::PE => 4,
            GpioPort::PF => 5,
            GpioPort::PG => 6,
            GpioPort::PH => 7,
            GpioPort::PI => 8,
            GpioPort::PJ => 9,
        }
    }

    /// The port a field encoding stands for.
    pub open spec fn decode(v: u32) -> GpioPort {
        if v == 0 {
            GpioPort::PA
        } else if v == 1 {
            GpioPort::PB
        } else if v == 2 {
            GpioPort::PC
        } else if v == 3 {
            GpioPort::PD
        } else if v == 4 {
            GpioPort::PE
        } else if v == 5 {
            GpioPort::PF
        } else if v == 6 {
            GpioPort::PG
        } else if v == 7 {
            GpioPort::PH
        } else if v == 8 {
            GpioPort::PI
        } else {
            GpioPort::PJ
        }
    }

    fn from_bits(v: u32) -> (port: GpioPort)
        requires
            v < 10,
        ensures
            port == GpioPort::decode(v),
    {
        if v == 0 {
            GpioPort::PA
        } else if v == 1 {
            GpioPort::PB
        } else if v == 2 {
            GpioPort::PC
        } else if v == 3 {
            GpioPort::PD
        } else if v == 4 {
            GpioPort::PE
        } else if v == 5 {
            GpioPort::PF
        } else if v == 6 {
            GpioPort::PG
        } else if v == 7 {
            GpioPort::PH
        } else if v == 8 {
            GpioPort::PI
        } else {
            GpioPort::PJ
        }
    }
}

impl GpioPull {
    /// The field encoding of this pull configuration.
    pub open spec fn code(self) -> u32 {
        match self {
            GpioPull::Floating => 0,
            GpioPull::Up => 1,
            GpioPull::Down => 2,
        }
    }

    fn bits(self) -> (bits: u32)
        ensures
            bits == self.code(),
    {
        match self {
            GpioPull::Floating => 0,
            GpioPull::Up => 1,
            GpioPull::Down => 2,
        }
    }

    /// The pull configuration a field encoding stands for.
    pub open spec fn decode(v: u32) -> GpioPull {
        if v == 0 {
            GpioPull::Floating
        } else if v == 1 {
            GpioPull::Up
        } else {
            GpioPull::Down
        }
    }

    fn from_bits(v: u32) -> (pull: GpioPull)
        requires
            v < 3,
        ensures
            pull == GpioPull::decode(v),
    {
        if v == 0 {
            GpioPull::Floating
        } else if v == 1 {
            GpioPull::Up
        } else {
            GpioPull::Down
        }
    }
}

impl GpioMode {
    /// The field encoding of this mode.
    pub open spec fn code(self) -> u32 {
        match self {
            GpioMode::Input => 0,
            GpioMode::InvertedInput => 1,
            GpioMode::Output => 2,
            GpioMode::InvertedOutput => 3,
            GpioMode::AlternateMode => 4,
            GpioMode::Analog => 5,
        }
    }

    fn bits(self) -> (bits: u32)
        ensures
            bits == self.code(),
    {
        match self {
            GpioMode::Input => 0,
            GpioMode::InvertedInput => 1,
            GpioMode::Output => 2,
            GpioMode::InvertedOutput => 3,
            GpioMode::AlternateMode => 4,
            GpioMode::Analog => 5,
        }
    }

    /// The mode a field encoding stands for.
    pub open spec fn decode(v: u32) -> GpioMode {
        if v == 0 {
            GpioMode::Input
        } else if v == 1 {
            GpioMode::InvertedInput
        } else if v == 2 {
            GpioMode::Output
        } else if v == 3 {
            GpioMode::InvertedOutput
        } else if v == 4 {
            GpioMode::AlternateMode
        } else {
            GpioMode::Analog
        }
    }

    fn from_bits(v: u32) -> (mode: GpioMode)
        requires
            v < 6,
        ensures
            mode == GpioMode::decode(v),
    {
        if v == 0 {
            GpioMode::Input
        } else if v == 1 {
            GpioMode::InvertedInput
        } else if v == 2 {
            GpioMode::Output
        } else if v == 3 {
            GpioMode::InvertedOutput
        } else if v == 4 {
            GpioMode::AlternateMode
        } else {
            GpioMode::Analog
        }
    }

    /// Whether a pin in this mode reads and writes the inverse of its
    /// physical level.
    pub open spec fn is_inverted(self) -> bool {
        self == GpioMode::InvertedInput || self == GpioMode::InvertedOutput
    }
}

/// Every field a [`GpioPin`] configuration holds.
pub struct GpioPinView {
    pub port: GpioPort,
    pub pin_number: u8,
    pub mode: GpioMode,
    pub pull: GpioPull,
    pub speed: GpioSpeed,
    pub alternate_function: u8,
}

/// The bit-packed encoding of a pin configuration.
pub open spec fn packed_bits(
    port: u32,
    pin_number: u32,
    mode: u32,
    pull: u32,
    speed: u32,
    af: u32,
) -> u32 {
    (af << 19u32) | (speed << 17u32) | (pull << 15u32) | (mode << 12u32) | (port << 8u32) | pin_number
}

/// Unpacking a packed configuration gives back every field.
proof fn lemma_unpack(port: u32, pin_number: u32, mode: u32, pull: u32, speed: u32, af: u32)
    requires
        port < 16,
        pin_number < 256,
        mode < 8,
        pull < 4,
        speed < 4,
        af < 16,
    ensures
        ({
            let b = packed_bits(port, pin_number, mode, pull, speed, af);
            &&& (b >> 8u32) & 15u32 == port
            &&& b & 255u32 == pin_number
            &&& (b >> 12u32) & 7u32 == mode
            &&& (b >> 15u32) & 3u32 == pull
            &&& (b >> 17u32) & 3u32 == speed
            &&& (b >> 19u32) & 15u32 == af
            &&& b < 0x80_0000
        }),
{
    let b = packed_bits(port, pin_number, mode, pull, speed, af);
    assert({
        &&& (b >> 8u32) & 15u32 == port
        &&& b & 255u32 == pin_number
        &&& (b >> 12u32) & 7u32 == mode
        &&& (b >> 15u32) & 3u32 == pull
        &&& (b >> 17u32) & 3u32 == speed
        &&& (b >> 19u32) & 15u32 == af
        &&& b < 0x80_0000
    }) by (bit_vector)
        requires
            port < 16,
            pin_number < 256,
            mode < 8,
            pull < 4,
            speed < 4,
            af < 16,
            b == (af << 19u32) | (speed << 17u32) | (pull << 15u32) | (mode << 12u32) | (port
                << 8u32) | pin_number,
    ;
}

/// A fully specified GPIO pin configuration (port, number, mode, pull,
/// speed, alternate function), bit-packed into a single `u32` so that it
/// fits one MCU register. For plain inputs/outputs it also records whether
/// the physical level is inverted relative to the logical value: a wire
/// called nRST should be called RST and created through
/// [`GpioPin::inverted_output`], so that setting it `true` drives 0V.
#[derive(Debug, Clone, Copy, PartialEq, Eq, Structural)]
pub struct GpioPin(u32);

impl GpioPin {
    #[verifier::type_invariant]
    spec fn fields_valid(self) -> bool {
        &&& (self.0 >> 8u32) & 15u32 < 10
        &&& (self.0 >> 12u32) & 7u32 < 6
        &&& (self.0 >> 15u32) & 3u32 < 3
        &&& self.0 < 0x80_0000
    }

    /// The configuration this pin describes.
    pub closed spec fn view(self) -> GpioPinView {
        GpioPinView {
            port: GpioPort::decode((self.0 >> 8u32) & 15u32),
            pin_number: (self.0 & 255u32) as u8,
            mode: GpioMode::decode((self.0 >> 12u32) & 7u32),
            pull: GpioPull::decode((self.0 >> 15u32) & 3u32),
            speed: GpioSpeed::decode((self.0 >> 17u32) & 3u32),
            alternate_function: ((self.0 >> 19u32) & 15u32) as u8,
        }
    }

    fn packed(
        port: GpioPort,
        pin_number: u8,
        mode: GpioMode,
        pull: GpioPull,
        speed: GpioSpeed,
        af: u8,
    ) -> (pin: Self)
        requires
            af <= AF_MASK,
        ensures
            pin.view() == (GpioPinView {
                port,
                pin_number,
                mode,
                pull,
                speed,
                alternate_function: af,
            }),
    {
        let p = port.index();
        let n = pin_number as u32;
        let m = mode.bits();
        let l = pull.bits();
        let s = speed.bits();
        let a = af as u32;
        let bits = (a << AF_SHIFT) | (s << SPEED_SHIFT) | (l << PULL_SHIFT) | (m << MODE_SHIFT) | (p
            << PORT_SHIFT) | (n << PIN_NUMBER_SHIFT);
        proof {
            assert(n << 0u32 == n) by (bit_vector);
            lemma_unpack(p, n, m, l, s, a);
            assert(bits == packed_bits(p, n, m, l, s, a));
        }
        GpioPin(bits)
    }
    /// General-purpose constructor, with no alternate function. Prefer
    /// [`GpioPin::output`], [`GpioPin::inverted_output`],
    /// [`GpioPin::input`], [`GpioPin::inverted_input`],
    /// [`GpioPin::alternate`] or [`GpioPin::analog`] where they fit.
    pub fn new(
        port: GpioPort,
        pin_number: u8,
        mode: GpioMode,
        pull: GpioPull,
        speed: GpioSpeed,
    ) -> (pin: Self)
        ensures
            pin.view() == (GpioPinView { port, pin_number, mode, pull, speed, alternate_function: 0 }),
    {
        Self::packed(port, pin_number, mode, pull, speed, 0)
    }

    /// A push-pull digital output pin with no pull resistor and low speed.
    pub fn output(port: GpioPort, pin_number: u8) -> (pin: Self)
        ensures
            pin.view() == (GpioPinView {
                port,
                pin_number,
                mode: GpioMode::Output,
                pull: GpioPull::Floating,
                speed: GpioSpeed::Low,
                alternate_function: 0,
            }),
    {
        Self::new(port, pin_number, GpioMode::Output, GpioPull::Floating, GpioSpeed::Low)
    }

    /// A push-pull digital output pin whose physical level is the inverse of
    /// the logical value set through [`GpioTrait::set`]; no pull resistor,
    /// low speed.
    pub fn inverted_output(port: GpioPort, pin_number: u8) -> (pin: Self)
        ensures
            pin.view() == (GpioPinView {
                port,
                pin_number,
                mode: GpioMode::InvertedOutput,
                pull: GpioPull::Floating,
                speed: GpioSpeed::Low,
                alternate_function: 0,
            }),
    {
        Self::new(port, pin_number, GpioMode::InvertedOutput, GpioPull::Floating, GpioSpeed::Low)
    }

    /// An analog pin (ADC input, DAC output, comparator/OPAMP terminal, or
    /// an unused pin parked in its lowest-power state), with no pull
    /// resistor.
    pub fn analog(port: GpioPort, pin_number: u8) -> (pin: Self)
        ensures
            pin.view() == (GpioPinView {
                port,
                pin_number,
                mode: GpioMode::Analog,
                pull: GpioPull::Floating,
                speed: GpioSpeed::Low,
                alternate_function: 0,
            }),
    {
        Self::new(port, pin_number, GpioMode::Analog, GpioPull::Floating, GpioSpeed::Low)
    }

    /// A digital input pin with no pull resistor.
    pub fn input(port: GpioPort, pin_number: u8) -> (pin: Self)
        ensures
            pin.view() == (GpioPinView {
                port,
                pin_number,
                mode: GpioMode::Input,
                pull: GpioPull::Floating,
                speed: GpioSpeed::Low,
                alternate_function: 0,
            }),
    {
        Self::new(port, pin_number, GpioMode::Input, GpioPull::Floating, GpioSpeed::Low)
    }

    /// A digital input pin whose logical value, read through
    /// [`GpioTrait::get`], is the inverse of its physical level; no pull
    /// resistor.
    pub fn inverted_input(port: GpioPort, pin_number: u8) -> (pin: Self)
        ensures
            pin.view() == (GpioPinView {
                port,
                pin_number,
                mode: GpioMode::InvertedInput,
                pull: GpioPull::Floating,
                speed: GpioSpeed::Low,
                alternate_function: 0,
            }),
    {
        Self::new(port, pin_number, GpioMode::InvertedInput, GpioPull::Floating, GpioSpeed::Low)
    }

    /// A pin routed through alternate function `af` (0..=15, from the chip's
    /// alternate-function table), with no pull resistor and low speed.
    pub fn alternate(port: GpioPort, pin_number: u8, af: u8) -> (pin: Self)
        requires
            af <= AF_MASK,
        ensures
            pin.view() == (GpioPinView {
                port,
                pin_number,
                mode: GpioMode::AlternateMode,
                pull: GpioPull::Floating,
                speed: GpioSpeed::Low,
                alternate_function: af,
            }),
    {
        Self::packed(port, pin_number, GpioMode::AlternateMode, GpioPull::Floating, GpioSpeed::Low, af)
    }

    /// Replaces this pin's pull configuration, leaving every other field.
    fn with_pull(self, pull: GpioPull) -> (pin: Self)
        ensures
            pin.view() == (GpioPinView { pull, ..self.view() }),
    {
        proof {
            use_type_invariant(self);
        }
        let b = self.0;
        let l = pull.bits();
        let bits = (b & !(3u32 << PULL_SHIFT)) | (l << PULL_SHIFT);
        proof {
            assert({
                &&& (bits >> 8u32) & 15u32 == (b >> 8u32) & 15u32
                &&& bits & 255u32 == b & 255u32
                &&& (bits >> 12u32) & 7u32 == (b >> 12u32) & 7u32
                &&& (bits >> 15u32) & 3u32 == l
                &&& (bits >> 17u32) & 3u32 == (b >> 17u32) & 3u32
                &&& (bits >> 19u32) & 15u32 == (b >> 19u32) & 15u32
                &&& bits < 0x80_0000
            }) by (bit_vector)
                requires
                    l < 3,
                    b < 0x80_0000,
                    bits == (b & !(3u32 << 15u32)) | (l << 15u32),
            ;
        }
        GpioPin(bits)
    }

    /// Replaces this pin's speed, leaving every other field.
    fn with_speed(self, speed: GpioSpeed) -> (pin: Self)
        ensures
            pin.view() == (GpioPinView { speed, ..self.view() }),
    {
        proof {
            use_type_invariant(self);
        }
        let b = self.0;
        let s = speed.bits();
        let bits = (b & !(3u32 << SPEED_SHIFT)) | (s << SPEED_SHIFT);
        proof {
            assert({
                &&& (bits >> 8u32) & 15u32 == (b >> 8u32) & 15u32
                &&& bits & 255u32 == b & 255u32
                &&& (bits >> 12u32) & 7u32 == (b >> 12u32) & 7u32
                &&& (bits >> 15u32) & 3u32 == (b >> 15u32) & 3u32
                &&& (bits >> 17u32) & 3u32 == s
                &&& (bits >> 19u32) & 15u32 == (b >> 19u32) & 15u32
                &&& bits < 0x80_0000
            }) by (bit_vector)
                requires
                    s < 4,
                    b < 0x80_0000,
                    bits == (b & !(3u32 << 17u32)) | (s << 17u32),
            ;
        }
        GpioPin(bits)
    }

    /// Overrides the pull resistor to pull-up.
    pub fn with_pull_up(self) -> (pin: Self)
        ensures
            pin.view() == (GpioPinView { pull: GpioPull::Up, ..self.view() }),
    {
        self.with_pull(GpioPull::Up)
    }

    /// Overrides the pull resistor to pull-down.
    pub fn with_pull_down(self) -> (pin: Self)
        ensures
            pin.view() == (GpioPinView { pull: GpioPull::Down, ..self.view() }),
    {
        self.with_pull(GpioPull::Down)
    }

    /// Overrides the output speed / slew rate to low.
    pub fn with_low_speed(self) -> (pin: Self)
        ensures
            pin.view() == (GpioPinView { speed: GpioSpeed::Low, ..self.view() }),
    {
        self.with_speed(GpioSpeed::Low)
    }

    /// Overrides the output speed / slew rate to medium.
    pub fn with_medium_speed(self) -> (pin: Self)
        ensures
            pin.view() == (GpioPinView { speed: GpioSpeed::Medium, ..self.view() }),
    {
        self.with_speed(GpioSpeed::Medium)
    }

    /// Overrides the output speed / slew rate to high.
    pub fn with_high_speed(self) -> (pin: Self)
        ensures
            pin.view() == (GpioPinView { speed: GpioSpeed::High, ..self.view() }),
    {
        self.with_speed(GpioSpeed::High)
    }

    /// Overrides the output speed / slew rate to very high.
    pub fn with_very_high_speed(self) -> (pin: Self)
        ensures
            pin.view() == (GpioPinView { speed: GpioSpeed::VeryHigh, ..self.view() }),
    {
        self.with_speed(GpioSpeed::VeryHigh)
    }

    /// The pin's port.
    pub fn port(&self) -> (port: GpioPort)
        ensures
            port == self.view().port,
    {
        proof {
            use_type_invariant(self);
        }
        GpioPort::from_bits((self.0 >> PORT_SHIFT) & 15)
    }

    /// The pin's number within its port.
    pub fn pin_number(&self) -> (pin_number: u8)
        ensures
            pin_number == self.view().pin_number,
    {
        (self.0 & 255) as u8
    }

    /// The pin's mode.
    pub fn mode(&self) -> (mode: GpioMode)
        ensures
            mode == self.view().mode,
    {
        proof {
            use_type_invariant(self);
        }
        GpioMode::from_bits((self.0 >> MODE_SHIFT) & 7)
    }

    /// The pin's pull resistor configuration.
    pub fn pull(&self) -> (pull: GpioPull)
        ensures
            pull == self.view().pull,
    {
        proof {
            use_type_invariant(self);
        }
        GpioPull::from_bits((self.0 >> PULL_SHIFT) & 3)
    }

    /// The pin's output speed / slew rate.
    pub fn speed(&self) -> (speed: GpioSpeed)
        ensures
            speed == self.view().speed,
    {
        let b = self.0;
        proof {
            assert((b >> 17u32) & 3u32 < 4) by (bit_vector);
        }
        GpioSpeed::from_bits((b >> SPEED_SHIFT) & 3)
    }

    /// The alternate-function index set by [`GpioPin::alternate`]; always 0
    /// unless the mode is [`GpioMode::AlternateMode`].
    pub fn alternate_function(&self) -> (af: u8)
        ensures
            af == self.view().alternate_function,
    {
        ((self.0 >> AF_SHIFT) & AF_MASK) as u8
    }
}

/// Implemented by any type that knows its own physical GPIO identity, e.g. a
/// pin-token type standing for one pin resource; the simulated
/// [`crate::fake_gpio::Gpio::claim_pin`] uses it to register a claimed pin.
pub trait PinToken {
    const PORT: GpioPort;
    const NUMBER: u8;
}

/// Whether `mode` drives its pin: the output modes.
pub open spec fn is_output(mode: GpioMode) -> bool {
    mode == GpioMode::Output || mode == GpioMode::InvertedOutput
}

/// The logical level of a pin in `mode` at physical level `high`: the
/// physical level, inverted in the inverted modes.
pub open spec fn logical_of(mode: GpioMode, high: bool) -> bool {
    if mode.is_inverted() {
        !high
    } else {
        high
    }
}

/// The interface every GPIO driver implements. A driver is described by
/// each pin's configured mode and physical level.
pub trait GpioTrait {
    /// The mode pin `number` of `port` is configured in.
    spec fn pin_mode(&self, port: GpioPort, number: u8) -> GpioMode;

    /// Whether pin `number` of `port` is physically high.
    spec fn physical_high(&self, port: GpioPort, number: u8) -> bool;

    /// Every write made through [`Self::set`] and [`Self::set_at`], in
    /// order: the pin, the logical level, and the clock's reading when
    /// it was made, where the write was timed.
    spec fn writes(&self) -> Seq<(GpioPinView, bool, Option<int>)>;

    /// Applies `pin`'s mode/pull/speed configuration. A configured pull
    /// resistor is active on return; an output pin is driven to follow the
    /// pull configuration (low with no pull resistor). Every other pin is
    /// left as it was.
    fn configure(&mut self, pin: GpioPin)
        ensures
            final(self).pin_mode(pin.view().port, pin.view().pin_number) == pin.view().mode,
            pin.view().pull == GpioPull::Up ==> final(self).physical_high(
                pin.view().port,
                pin.view().pin_number,
            ),
            pin.view().pull == GpioPull::Down ==> !final(self).physical_high(
                pin.view().port,
                pin.view().pin_number,
            ),
            pin.view().pull == GpioPull::Floating && is_output(pin.view().mode) ==> !final(self).physical_high(pin.view().port, pin.view().pin_number),
            forall|port: GpioPort, number: u8|
                !(port == pin.view().port && number == pin.view().pin_number) ==> #[trigger] final(self).pin_mode(port, number) == old(self).pin_mode(port, number),
            forall|port: GpioPort, number: u8|
                !(port == pin.view().port && number == pin.view().pin_number) ==> #[trigger] final(self).physical_high(port, number) == old(self).physical_high(port, number),
            final(self).writes() == old(self).writes(),
    ;

    /// Drives `pin` to the `logical` level; does nothing unless `pin` is
    /// configured as an output (or inverted output). No pin's mode changes,
    /// and no other pin's level.
    fn set(&mut self, pin: GpioPin, logical: bool)
        ensures
            forall|port: GpioPort, number: u8| #[trigger]
                final(self).pin_mode(port, number) == old(self).pin_mode(port, number),
            forall|port: GpioPort, number: u8|
                !(port == pin.view().port && number == pin.view().pin_number) ==> #[trigger] final(self).physical_high(port, number) == old(self).physical_high(port, number),
            is_output(old(self).pin_mode(pin.view().port, pin.view().pin_number)) ==> logical_of(
                old(self).pin_mode(pin.view().port, pin.view().pin_number),
                final(self).physical_high(pin.view().port, pin.view().pin_number),
            ) == logical,
            !is_output(old(self).pin_mode(pin.view().port, pin.view().pin_number)) ==> final(self).physical_high(pin.view().port, pin.view().pin_number) == old(self).physical_high(
                pin.view().port,
                pin.view().pin_number,
            ),
            final(self).writes() == old(self).writes().push((pin.view(), logical, None::<int>)),
    ;

    /// Drives `pin` as [`Self::set`] does, and records the write with the
    /// time `clock` last read: the time the pin changed.
    fn set_at<C: ClockTrait>(&mut self, pin: GpioPin, logical: bool, clock: &C)
        ensures
            forall|port: GpioPort, number: u8| #[trigger]
                final(self).pin_mode(port, number) == old(self).pin_mode(port, number),
            forall|port: GpioPort, number: u8|
                !(port == pin.view().port && number == pin.view().pin_number) ==> #[trigger] final(self).physical_high(port, number) == old(self).physical_high(port, number),
            is_output(old(self).pin_mode(pin.view().port, pin.view().pin_number)) ==> logical_of(
                old(self).pin_mode(pin.view().port, pin.view().pin_number),
                final(self).physical_high(pin.view().port, pin.view().pin_number),
            ) == logical,
            !is_output(old(self).pin_mode(pin.view().port, pin.view().pin_number)) ==> final(self).physical_high(pin.view().port, pin.view().pin_number) == old(self).physical_high(
                pin.view().port,
                pin.view().pin_number,
            ),
            final(self).writes() == old(self).writes().push(
                (pin.view(), logical, Some(clock.uptime_at(clock.counter()))),
            ),
    ;

    /// Reads `pin`'s current logical level.
    fn get(&self, pin: GpioPin) -> (level: bool)
        ensures
            level == logical_of(
                self.pin_mode(pin.view().port, pin.view().pin_number),
                self.physical_high(pin.view().port, pin.view().pin_number),
            ),
    ;
}

} // verus!
