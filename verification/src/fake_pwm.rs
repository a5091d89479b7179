//! A simulated PWM generator for host-side testing: whether it is open,
//! with which options, and each channel's duty cycle. [`Pwm`] is the
//! firmware-facing driver; its [`FakePwm`] (reached through [`Pwm::fake`])
//! lets a test observe what firmware configured.
use vstd::prelude::*;
use crate::adc::trigger_source_name;
use crate::callback_registry::{Callback, CallbackRegistry, PendingQueue};
use crate::duration::{fits_i64, raw_of_units, second, Duration};
use crate::pwm::{trigger_out_2_wire, PwmOptions, PwmTimer, PwmTrait, MAX_PWM_CHANNELS};
use crate::unit_interval::UnitInterval;
use crate::uptime::Uptime;

verus! {

/// The simulated PWM generator.
pub struct FakePwm {
    /// `None` while closed.
    options: Option<PwmOptions>,
    /// The duty cycle last set for each channel; reset to 0 by every open
    /// and close.
    duty_cycles: [UnitInterval; 3],
    /// The timer simulated, which names its trigger-out signal.
    timer: PwmTimer,
}

impl FakePwm {
    /// The options of the last open, while open.
    pub closed spec fn opened_with(&self) -> Option<PwmOptions> {
        self.options
    }

    /// The duty cycle of `channel`, as a raw [`UnitInterval`] (zero outside
    /// the simulated channels).
    pub closed spec fn duty(&self, channel: int) -> int {
        if 0 <= channel < MAX_PWM_CHANNELS {
            self.duty_cycles@[channel]@
        } else {
            0
        }
    }

    /// The timer simulated.
    pub closed spec fn timer(&self) -> PwmTimer {
        self.timer
    }

    /// Whether the PWM was opened more recently than closed.
    pub fn is_open(&self) -> (open: bool)
        ensures
            open == self.opened_with() is Some,
    {
        self.options.is_some()
    }

    /// The options of the last open, while open.
    pub fn options(&self) -> (options: Option<PwmOptions>)
        ensures
            options == self.opened_with(),
    {
        self.options
    }

    /// The duty cycle last set for `channel` (0 if never set since the last
    /// open or close). `channel` must be below [`MAX_PWM_CHANNELS`].
    pub fn duty_cycle(&self, channel: u8) -> (value: UnitInterval)
        requires
            channel < MAX_PWM_CHANNELS,
        ensures
            value@ == self.duty(channel as int),
    {
        self.duty_cycles[channel as usize]
    }
}

/// The frequency the simulated trigger-out runs at: the PWM's, while open
/// with the mid-point trigger; none otherwise.
pub open spec fn trigger_out_frequency(pwm: FakePwm) -> Option<u32> {
    match pwm.opened_with() {
        Some(options) => if options.has_mid_point_trigger() {
            Some(options.frequency())
        } else {
            None
        },
        None => None,
    }
}

/// A PWM period at `frequency` Hz in whole nanoseconds, rounded down.
pub open spec fn period_nanos(frequency: int) -> int {
    1_000_000_000int / frequency
}

/// The simulated trigger-out period at `frequency` Hz (raw units).
pub open spec fn trigger_out_period(frequency: int) -> int {
    raw_of_units(period_nanos(frequency), 1_000_000_000)
}

/// How long after opening the first simulated trigger-out fires: the
/// counter's first peak, half a period in (raw units).
pub open spec fn first_trigger_out_delay(frequency: int) -> int {
    raw_of_units(period_nanos(frequency) / 2, 1_000_000_000)
}

/// Up to a second's worth of nanoseconds is up to a second.
proof fn lemma_nanos_within_a_second(nanos: int)
    requires
        0 <= nanos <= 1_000_000_000,
    ensures
        0 <= raw_of_units(nanos, 1_000_000_000) <= second(),
{
    assert(0 <= nanos * second() <= 1_000_000_000 * second()) by (nonlinear_arith)
        requires
            0 <= nanos <= 1_000_000_000,
    ;
    vstd::arithmetic::div_mod::lemma_div_is_ordered(
        nanos * second(),
        1_000_000_000 * second(),
        1_000_000_000,
    );
    vstd::arithmetic::div_mod::lemma_div_by_multiple(second(), 1_000_000_000);
    vstd::arithmetic::div_mod::lemma_div_pos_is_pos(nanos * second(), 1_000_000_000);
}

/// The period, and half of it, at `frequency` Hz, each in whole nanoseconds
/// rounded down.
fn period_and_half_nanos(frequency: u32) -> (nanos: (i32, i32))
    requires
        frequency > 0,
    ensures
        nanos.0 == period_nanos(frequency as int),
        nanos.1 == period_nanos(frequency as int) / 2,
        0 <= nanos.1 <= nanos.0 <= 1_000_000_000,
{
    let period = 1_000_000_000u32 / frequency;
    proof {
        vstd::arithmetic::div_mod::lemma_div_is_ordered_by_denominator(1_000_000_000, 1, frequency as int);
    }
    (period as i32, (period / 2) as i32)
}

/// A simulated PWM driver.
pub struct Pwm {
    state: FakePwm,
}

impl Pwm {
    /// The simulated generator this driver drives.
    pub closed spec fn state(&self) -> FakePwm {
        self.state
    }

    /// Creates a closed simulated PWM generator for `timer`. The timer clock
    /// frequency is accepted and ignored: there is no clock tree to
    /// configure.
    pub fn new(timer: PwmTimer, _timer_clock_hz: u32) -> (pwm: Self)
        ensures
            pwm.state().opened_with() is None,
            pwm.state().timer() == timer,
            forall|channel: int| #[trigger] pwm.state().duty(channel) == 0,
    {
        let zero = UnitInterval::new(0);
        Pwm { state: FakePwm { options: None, duty_cycles: [zero, zero, zero], timer } }
    }

    /// The test's view onto the simulated generator.
    pub fn fake(&self) -> (fake: &FakePwm)
        ensures
            *fake == self.state(),
    {
        &self.state
    }

    /// The name the simulated trigger-out fires under: the timer's TRGO2
    /// wire.
    pub fn trigger_out_name(&self) -> (name: &'static str)
        ensures
            name@ == trigger_source_name(trigger_out_2_wire(self.state().timer())),
    {
        self.state.timer.trigger_out_2().name()
    }

    /// Starts the simulated trigger-out after an open with the mid-point
    /// trigger: its first firing is scheduled in `registry` at the first
    /// period's mid-point, half a period from the registry's current time.
    /// Schedules nothing otherwise.
    pub fn arm_trigger_out<C: Callback>(&self, registry: &mut CallbackRegistry<C>)
        requires
            old(registry).wf(),
            trigger_out_frequency(self.state()) matches Some(frequency) ==> fits_i64(
                old(registry).uptime() + first_trigger_out_delay(frequency as int),
            ),
        ensures
            final(registry).wf(),
            final(registry).names() == old(registry).names(),
            final(registry).callbacks() == old(registry).callbacks(),
            final(registry).runs() == old(registry).runs(),
            final(registry).fired_log() == old(registry).fired_log(),
            final(registry).clock() == old(registry).clock(),
            match trigger_out_frequency(self.state()) {
                Some(frequency) => final(registry).pending() == old(registry).pending().push(
                    (
                        old(registry).uptime() + first_trigger_out_delay(frequency as int),
                        vstd::utf8::encode_utf8(
                            trigger_source_name(trigger_out_2_wire(self.state().timer())),
                        ),
                    ),
                ),
                None => final(registry).pending() == old(registry).pending(),
            },
    {
        match self.state.options {
            Some(options) => {
                if options.mid_point_trigger() {
                    let (_period, half) = period_and_half_nanos(options.frequency_hz());
                    proof {
                        lemma_nanos_within_a_second(half as int);
                    }
                    let now = registry.now();
                    proof {
                        now.lemma_view_range();
                    }
                    let at = now + Duration::from_nanos(half);
                    registry.schedule(self.trigger_out_name(), at);
                }
            },
            None => {},
        }
    }

    /// Opens the PWM as [`PwmTrait::open`] does, on a board whose timer
    /// output `registry` simulates: with the mid-point trigger, the first
    /// trigger-out firing is scheduled half a period from the registry's
    /// current time (see [`Self::arm_trigger_out`]).
    pub fn open_with_registry<C: Callback>(&mut self, options: PwmOptions, registry: &mut CallbackRegistry<C>)
        requires
            old(registry).wf(),
            options.has_mid_point_trigger() ==> fits_i64(
                old(registry).uptime() + first_trigger_out_delay(options.frequency() as int),
            ),
        ensures
            final(self).opened_with() == Some(options),
            forall|channel: int| #[trigger] final(self).duty(channel) == 0,
            final(self).state().timer() == old(self).state().timer(),
            final(registry).wf(),
            final(registry).names() == old(registry).names(),
            final(registry).callbacks() == old(registry).callbacks(),
            final(registry).runs() == old(registry).runs(),
            final(registry).fired_log() == old(registry).fired_log(),
            final(registry).clock() == old(registry).clock(),
            if options.has_mid_point_trigger() {
                final(registry).pending() == old(registry).pending().push(
                    (
                        old(registry).uptime() + first_trigger_out_delay(options.frequency() as int),
                        vstd::utf8::encode_utf8(
                            trigger_source_name(trigger_out_2_wire(old(self).state().timer())),
                        ),
                    ),
                )
            } else {
                final(registry).pending() == old(registry).pending()
            },
    {
        self.open(options);
        self.arm_trigger_out(registry);
    }

    /// Handles one simulated trigger-out firing at `fired_at`: while open
    /// with the mid-point trigger, schedules the next firing a period later;
    /// once closed (or reopened without it), schedules nothing, which stops
    /// the signal.
    pub fn on_trigger_out(&self, fired_at: Uptime, pending: &mut PendingQueue)
        requires
            trigger_out_frequency(self.state()) matches Some(frequency) ==> fits_i64(
                fired_at@ + trigger_out_period(frequency as int),
            ),
        ensures
            match trigger_out_frequency(self.state()) {
                Some(frequency) => final(pending).firings() == old(pending).firings().push(
                    (
                        fired_at@ + trigger_out_period(frequency as int),
                        vstd::utf8::encode_utf8(
                            trigger_source_name(trigger_out_2_wire(self.state().timer())),
                        ),
                    ),
                ),
                None => final(pending).firings() == old(pending).firings(),
            },
    {
        match self.state.options {
            Some(options) => {
                if options.mid_point_trigger() {
                    let (period, _half) = period_and_half_nanos(options.frequency_hz());
                    proof {
                        lemma_nanos_within_a_second(period as int);
                        fired_at.lemma_view_range();
                    }
                    pending.schedule(self.trigger_out_name(), fired_at + Duration::from_nanos(period));
                }
            },
            None => {},
        }
    }
}

impl PwmTrait for Pwm {
    open spec fn opened_with(&self) -> Option<PwmOptions> {
        self.state().opened_with()
    }

    open spec fn duty(&self, channel: int) -> int {
        self.state().duty(channel)
    }

    fn open(&mut self, options: PwmOptions)
        ensures
            forall|channel: int| #[trigger] final(self).duty(channel) == 0,
            final(self).state().timer() == old(self).state().timer(),
    {
        let zero = UnitInterval::new(0);
        self.state = FakePwm {
            options: Some(options),
            duty_cycles: [zero, zero, zero],
            timer: self.state.timer,
        };
    }

    /// Closes the PWM and resets every duty cycle to 0.
    fn close(&mut self)
        ensures
            forall|channel: int| #[trigger] final(self).duty(channel) == 0,
            final(self).state().timer() == old(self).state().timer(),
    {
        let zero = UnitInterval::new(0);
        self.state = FakePwm { options: None, duty_cycles: [zero, zero, zero], timer: self.state.timer };
    }

    /// Does nothing while closed or for a channel outside the range opened.
    fn set_duty_cycle(&mut self, channel: u8, value: UnitInterval)
        ensures
            !(old(self).opened_with() matches Some(options) && channel < options.channel_count())
                ==> final(self).state() == old(self).state(),
            final(self).state().timer() == old(self).state().timer(),
    {
        match self.state.options {
            Some(options) => {
                if channel < options.channels() {
                    self.state.duty_cycles[channel as usize] = value;
                }
            },
            None => {},
        }
    }

    /// Does nothing while closed.
    fn set_dead_time(&mut self, dead_time: Duration)
        ensures
            final(self).state().timer() == old(self).state().timer(),
    {
        match self.state.options {
            Some(options) => {
                let changed = PwmOptions::new(
                    options.frequency_hz(),
                    options.channels(),
                    dead_time,
                    options.mid_point_trigger(),
                );
                self.state.options = Some(changed);
            },
            None => {},
        }
    }
}

} // verus!
