//! The motor-control application's main loop, one iteration at a time: the
//! DS402 state machine a push button drives, the timing windows it waits
//! out, the rate limit on logging the rotor position, and the most severe
//! fault seen so far. Reading the clock, the button pin and the readings the
//! current loop publishes, and publishing the commanded
//! [`CurrentLoopOperation`] back to it, is the caller's part of the loop.
use vstd::prelude::*;
use crate::adc::{AdcOptions, AdcSampleBuffer, AdcTrait, AdcTriggerSource};
use crate::esc1_discovery::{tim1_dead_time, BoardPeripherals};
use crate::fake_adc::Adc;
use crate::fake_clock::ClockProvider;
use crate::fake_gpio::Gpio;
use crate::fake_pwm::Pwm;
use crate::fake_quadrature::Quadrature;
use crate::pwm::{PwmOptions, PwmTrait};
use crate::quadrature::{QuadratureInputConfiguration, QuadratureOptions, QuadratureTrait};
use crate::debounce::{poll_step, DebounceState, Debouncer};
use crate::ds402::State;
use crate::duration::{fits_i64, raw_of_units, second, Duration};
use crate::unit_interval::{SymmetricUnitInterval, UnitInterval};
use crate::uptime::Uptime;

verus! {

/// What the current loop does each cycle.
#[derive(Debug, Clone, Copy, PartialEq, Eq, Structural)]
pub enum CurrentLoopOperation {
    /// No PWM output; each phase's zero-current bias is averaged instead.
    Open,
    /// Drives phase U with a fixed voltage to pull the rotor to a known
    /// electrical angle, and records the rotor's position as that angle's
    /// zero, for as long as it is commanded.
    PhaseLock,
    /// Closes the current loop on the given torque-producing current target.
    CurrentControl(SymmetricUnitInterval),
}

/// A fault the main loop has observed, from least to most severe.
#[derive(Debug, Clone, Copy, PartialEq, Eq, Structural, PartialOrd, Ord)]
pub enum Fault {
    /// No fault observed (yet).
    NoFault,
    /// The first ADC's conversion had not finished by the time the second,
    /// longer, sequence had.
    AdcConversionIncomplete,
}

/// How severe a fault is: faults later in [`Fault`]'s declaration are more
/// severe.
pub open spec fn severity(fault: Fault) -> int {
    match fault {
        Fault::NoFault => 0,
        Fault::AdcConversionIncomplete => 1,
    }
}

/// The more severe of `recorded` and `reported` (`recorded` if they are
/// equally severe).
pub open spec fn worse(recorded: Fault, reported: Fault) -> Fault {
    if severity(reported) > severity(recorded) {
        reported
    } else {
        recorded
    }
}

/// The more severe of two faults.
pub fn more_severe(recorded: Fault, reported: Fault) -> (worst: Fault)
    ensures
        worst == worse(recorded, reported),
{
    match (recorded, reported) {
        (Fault::NoFault, Fault::AdcConversionIncomplete) => reported,
        _ => recorded,
    }
}

/// What one current-loop cycle decides from whether each ADC's conversion
/// sequence had finished: the fault to record, `pending` made worse by
/// [`Fault::AdcConversionIncomplete`] when the first ADC's shorter sequence
/// had not finished, and whether the second, longer, sequence has, so the
/// loop runs on fresh samples.
pub fn current_loop_cycle(adc1_done: bool, adc2_done: bool, pending: Fault) -> (out: (Fault, bool))
    ensures
        out.0 == if adc1_done {
            pending
        } else {
            worse(pending, Fault::AdcConversionIncomplete)
        },
        out.1 == adc2_done,
{
    let fault = if adc1_done {
        pending
    } else {
        more_severe(pending, Fault::AdcConversionIncomplete)
    };
    (fault, adc2_done)
}

/// Retrieves both ADCs' finished conversions, as the current loop does at
/// the start of each cycle, and decides as [`current_loop_cycle`] does on
/// whether each had finished.
pub fn retrieve_conversions<A: AdcTrait, B: AdcTrait>(adc1: &mut A, adc2: &mut B, pending: Fault) -> (out: (
    Fault,
    bool,
))
    ensures
        out.0 == if old(adc1).finished() {
            pending
        } else {
            worse(pending, Fault::AdcConversionIncomplete)
        },
        out.1 == old(adc2).finished(),
        !final(adc1).finished(),
        !final(adc2).finished(),
        final(adc1).opened_with() == old(adc1).opened_with(),
        final(adc2).opened_with() == old(adc2).opened_with(),
{
    let adc1_done = adc1.try_retrieve_result();
    let adc2_done = adc2.try_retrieve_result();
    current_loop_cycle(adc1_done, adc2_done, pending)
}

/// The three phases' duty cycles the current loop commands: the control's
/// output, or 0 on every phase when it commands none.
pub fn duty_cycles_or_zero(commanded: Option<(UnitInterval, UnitInterval, UnitInterval)>) -> (duty: (
    UnitInterval,
    UnitInterval,
    UnitInterval,
))
    ensures
        match commanded {
            Some(phases) => duty == phases,
            None => duty.0@ == 0 && duty.1@ == 0 && duty.2@ == 0,
        },
{
    match commanded {
        Some(phases) => phases,
        None => (UnitInterval::new(0), UnitInterval::new(0), UnitInterval::new(0)),
    }
}

/// Sets channels 0, 1 and 2 of `pwm` to the duty cycles
/// [`duty_cycles_or_zero`] gives for `commanded`; every other channel keeps
/// its duty cycle.
pub fn apply_duty_cycles<P: PwmTrait>(
    pwm: &mut P,
    commanded: Option<(UnitInterval, UnitInterval, UnitInterval)>,
)
    ensures
        final(pwm).opened_with() == old(pwm).opened_with(),
        (old(pwm).opened_with() matches Some(options) && 3 <= options.channel_count()) ==> {
            let duty = match commanded {
                Some(phases) => (phases.0@, phases.1@, phases.2@),
                None => (0, 0, 0),
            };
            &&& final(pwm).duty(0) == duty.0
            &&& final(pwm).duty(1) == duty.1
            &&& final(pwm).duty(2) == duty.2
        },
        forall|channel: int| channel < 0 || 2 < channel ==> #[trigger] final(pwm).duty(channel) == old(pwm).duty(channel),
{
    let duty = duty_cycles_or_zero(commanded);
    pwm.set_duty_cycle(0, duty.0);
    pwm.set_duty_cycle(1, duty.1);
    pwm.set_duty_cycle(2, duty.2);
}

/// How long the button must read steadily pressed (or released) before the
/// change counts: 20 ms, in raw units.
pub open spec fn debounce_window() -> int {
    raw_of_units(20, 1_000)
}

/// How long each phase's zero-current bias is averaged before leaving
/// [`State::NotReadyToSwitchOn`]: 5 ms, in raw units.
pub open spec fn bias_average_window() -> int {
    raw_of_units(5, 1_000)
}

/// How long [`CurrentLoopOperation::PhaseLock`] is held on entering
/// [`State::SwitchedOn`] before a press may enable operation, so the rotor
/// has settled into alignment: 50 ms, in raw units.
pub open spec fn phase_lock_settle_window() -> int {
    raw_of_units(50, 1_000)
}

/// How often the rotor's position is handed out for logging: one second,
/// in raw units.
pub open spec fn position_log_interval() -> int {
    second()
}

/// The button's debounce threshold, both ways.
pub fn debounce_duration() -> (d: Duration)
    ensures
        d@ == debounce_window(),
{
    Duration::from_millis(20)
}

/// The zero-current bias averaging window.
pub fn bias_average_duration() -> (d: Duration)
    ensures
        d@ == bias_average_window(),
{
    Duration::from_millis(5)
}

/// The phase-lock settling window.
pub fn phase_lock_settle_duration() -> (d: Duration)
    ensures
        d@ == phase_lock_settle_window(),
{
    Duration::from_millis(50)
}

/// The interval between two logged rotor positions.
pub fn physical_position_log_interval() -> (d: Duration)
    ensures
        d@ == position_log_interval(),
{
    Duration::from_seconds(1)
}

/// Each window is positive and at most a second long.
proof fn lemma_windows()
    ensures
        0 < bias_average_window() <= second(),
        0 < debounce_window() <= second(),
        0 < phase_lock_settle_window() <= second(),
        debounce_window() <= phase_lock_settle_window(),
{
}

/// The state [`complete_initialization`] moves `state` to.
pub open spec fn initialized(state: State) -> State {
    match state {
        State::NotReadyToSwitchOn => State::SwitchOnDisabled,
        other => other,
    }
}

/// DS402 transitions 0 and 1 combined: the only initialization this
/// application has is the bias averaging window, so completing it is what
/// completes initialization. A no-op from every other state.
pub fn complete_initialization(state: State) -> (next: State)
    ensures
        next == initialized(state),
{
    match state {
        State::NotReadyToSwitchOn => State::SwitchOnDisabled,
        other => other,
    }
}

/// The state [`on_confirmed_button_press`] moves `state` to.
pub open spec fn after_confirmed_press(state: State) -> State {
    match state {
        State::SwitchOnDisabled => State::SwitchedOn,
        State::OperationEnabled => State::QuickStopActive,
        other => other,
    }
}

/// The application's single gesture, a confirmed button press: DS402
/// transitions 2 (Shutdown) and 3 (Switch On) at once from
/// [`State::SwitchOnDisabled`] to [`State::SwitchedOn`], passing over
/// [`State::ReadyToSwitchOn`], or transition 11 (Quick Stop) from
/// [`State::OperationEnabled`]. A no-op from every other state; transition 4
/// (Enable Operation) also waits for the phase lock to settle, so
/// [`Firmware::step`] drives it itself.
pub fn on_confirmed_button_press(state: State) -> (next: State)
    ensures
        next == after_confirmed_press(state),
{
    match state {
        State::SwitchOnDisabled => State::SwitchedOn,
        State::OperationEnabled => State::QuickStopActive,
        other => other,
    }
}

/// The state transitions the main loop ever makes.
pub open spec fn application_transition(from: State, to: State) -> bool {
    ||| from == State::NotReadyToSwitchOn && to == State::SwitchOnDisabled
    ||| from == State::SwitchOnDisabled && to == State::SwitchedOn
    ||| from == State::SwitchedOn && to == State::OperationEnabled
    ||| from == State::OperationEnabled && to == State::QuickStopActive
    ||| from == State::QuickStopActive && to == State::SwitchOnDisabled
}

/// The main loop's control state, with times as raw uptimes.
pub struct Control {
    /// The DS402 state.
    pub state: State,
    /// When [`State::NotReadyToSwitchOn`] was first observed, while in it.
    pub not_ready_since: Option<int>,
    /// When [`State::SwitchedOn`] was first observed, while in it.
    pub phase_lock_since: Option<int>,
    /// The button debouncer's state.
    pub button: DebounceState,
    /// Whether the debounced button was pressed as of the previous poll.
    pub button_was_active: bool,
}

/// The button debouncer's state after a raw reading `raw_pressed` at `now`.
pub open spec fn button_step(button: DebounceState, now: int, raw_pressed: bool) -> DebounceState {
    poll_step(button, debounce_window(), debounce_window(), now, raw_pressed)
}

/// `c` with the button polled at `now`: the debouncer moves on, and the
/// debounced value is remembered for the next poll's edge detection.
pub open spec fn polled(c: Control, now: int, raw_pressed: bool) -> Control {
    let button = button_step(c.button, now, raw_pressed);
    Control { button, button_was_active: button.0, ..c }
}

/// Whether polling the button at `now` confirms a fresh press: the debounced
/// value turns from released to pressed.
pub open spec fn fresh_press(c: Control, now: int, raw_pressed: bool) -> bool {
    button_step(c.button, now, raw_pressed).0 && !c.button_was_active
}

/// The start of a window: the time it was first observed, or `now` if this
/// is the first observation.
pub open spec fn window_start(since: Option<int>, now: int) -> int {
    match since {
        Some(t) => t,
        None => now,
    }
}

/// One main-loop step of the control state at `now`, with `raw_pressed` the
/// button pin's reading and `target` the current target the potentiometer
/// commands: the next control state, and the operation to command the
/// current loop, if any.
pub open spec fn control_step(
    c: Control,
    now: int,
    raw_pressed: bool,
    target: SymmetricUnitInterval,
) -> (Control, Option<CurrentLoopOperation>) {
    match c.state {
        State::NotReadyToSwitchOn => {
            let since = window_start(c.not_ready_since, now);
            if now >= since + bias_average_window() {
                (Control { state: initialized(c.state), not_ready_since: None, ..c }, None)
            } else {
                (Control { not_ready_since: Some(since), ..c }, None)
            }
        },
        State::SwitchOnDisabled => {
            let next = polled(c, now, raw_pressed);
            if fresh_press(c, now, raw_pressed) {
                (Control { state: after_confirmed_press(c.state), ..next }, None)
            } else {
                (next, None)
            }
        },
        State::SwitchedOn => {
            let since = window_start(c.phase_lock_since, now);
            let next = polled(c, now, raw_pressed);
            if now >= since + phase_lock_settle_window() && fresh_press(c, now, raw_pressed) {
                (
                    Control { state: State::OperationEnabled, phase_lock_since: None, ..next },
                    Some(CurrentLoopOperation::PhaseLock),
                )
            } else {
                (
                    Control { phase_lock_since: Some(since), ..next },
                    Some(CurrentLoopOperation::PhaseLock),
                )
            }
        },
        State::OperationEnabled => {
            let next = polled(c, now, raw_pressed);
            if fresh_press(c, now, raw_pressed) {
                (
                    Control { state: after_confirmed_press(c.state), ..next },
                    Some(CurrentLoopOperation::Open),
                )
            } else {
                (next, Some(CurrentLoopOperation::CurrentControl(target)))
            }
        },
        State::QuickStopActive => (
            Control { state: State::SwitchOnDisabled, phase_lock_since: None, ..c },
            Some(CurrentLoopOperation::Open),
        ),
        _ => (c, None),
    }
}

/// Whether the rotor position is due for logging at `now`, having last been
/// logged at `last` (never, if `None`).
pub open spec fn log_due(last: Option<int>, now: int) -> bool {
    match last {
        Some(t) => now >= t + position_log_interval(),
        None => true,
    }
}

/// The longest window a main-loop step in `state` may add to the time of
/// the step: the bias window while initializing, the debounce window where
/// the button is polled, and the settling window (the longer of the two)
/// while the phase lock holds.
pub open spec fn step_window(state: State) -> int {
    match state {
        State::NotReadyToSwitchOn => bias_average_window(),
        State::SwitchOnDisabled => debounce_window(),
        State::SwitchedOn => phase_lock_settle_window(),
        State::OperationEnabled => debounce_window(),
        _ => 0,
    }
}

/// A stored time's raw value, if any.
pub open spec fn raw_time(t: Option<Uptime>) -> Option<int> {
    match t {
        Some(u) => Some(u@),
        None => None,
    }
}

/// A stored time, if any, leaves room for a window of `window` after it.
pub open spec fn room_after(t: Option<int>, window: int) -> bool {
    match t {
        Some(u) => fits_i64(u + window),
        None => true,
    }
}

/// Everything the main loop does after bring-up, one iteration at a time.
pub struct Firmware {
    state: State,
    not_ready_since: Option<Uptime>,
    phase_lock_since: Option<Uptime>,
    button_debouncer: Debouncer,
    button_was_active: bool,
    fault: Fault,
    last_logged_physical_position_at: Option<Uptime>,
}

impl Firmware {
    /// The control state.
    pub closed spec fn control(&self) -> Control {
        Control {
            state: self.state,
            not_ready_since: raw_time(self.not_ready_since),
            phase_lock_since: raw_time(self.phase_lock_since),
            button: self.button_debouncer.state(),
            button_was_active: self.button_was_active,
        }
    }

    /// The most severe fault reported so far.
    pub closed spec fn recorded_fault(&self) -> Fault {
        self.fault
    }

    /// When the rotor position was last handed out for logging (never, if
    /// `None`).
    pub closed spec fn last_logged_at(&self) -> Option<int> {
        raw_time(self.last_logged_physical_position_at)
    }

    /// The debouncer uses the application's threshold both ways, and the
    /// start of each open window leaves room for the window after it.
    pub closed spec fn wf(&self) -> bool {
        &&& self.button_debouncer.inactive_to_active() == debounce_window()
        &&& self.button_debouncer.active_to_inactive() == debounce_window()
        &&& room_after(raw_time(self.not_ready_since), bias_average_window())
        &&& room_after(raw_time(self.phase_lock_since), phase_lock_settle_window())
    }

    /// A main loop in [`State::NotReadyToSwitchOn`], with the button
    /// released, no window started, no fault and nothing logged yet.
    pub fn new() -> (firmware: Self)
        ensures
            firmware.wf(),
            firmware.control() == (Control {
                state: State::NotReadyToSwitchOn,
                not_ready_since: None,
                phase_lock_since: None,
                button: (false, None),
                button_was_active: false,
            }),
            firmware.recorded_fault() == Fault::NoFault,
            firmware.last_logged_at() == None::<int>,
    {
        Firmware {
            state: State::NotReadyToSwitchOn,
            not_ready_since: None,
            phase_lock_since: None,
            button_debouncer: Debouncer::new(debounce_duration(), debounce_duration()),
            button_was_active: false,
            fault: Fault::NoFault,
            last_logged_physical_position_at: None,
        }
    }

    /// The DS402 state.
    pub fn state(&self) -> (state: State)
        ensures
            state == self.control().state,
    {
        self.state
    }

    /// The most severe fault reported so far.
    pub fn fault(&self) -> (fault: Fault)
        ensures
            fault == self.recorded_fault(),
    {
        self.fault
    }

    /// Whether the debounced button was pressed as of the last poll.
    pub fn button_was_active(&self) -> (active: bool)
        ensures
            active == self.control().button_was_active,
    {
        self.button_was_active
    }

    /// Records a newly observed fault, keeping whichever of it and the
    /// fault recorded so far is more severe: a recorded fault is never
    /// downgraded by a later, less severe one.
    pub fn report_fault(&mut self, fault: Fault)
        requires
            old(self).wf(),
        ensures
            final(self).wf(),
            final(self).recorded_fault() == worse(old(self).recorded_fault(), fault),
            final(self).control() == old(self).control(),
            final(self).last_logged_at() == old(self).last_logged_at(),
    {
        self.fault = more_severe(self.fault, fault);
    }

    /// Debounces the button's raw reading at `now` and reports whether it
    /// confirms a fresh press (a press held over several polls is confirmed
    /// once).
    fn confirmed_button_press(&mut self, now: Uptime, raw_pressed: bool) -> (pressed: bool)
        requires
            old(self).wf(),
            fits_i64(now@ + debounce_window()),
        ensures
            final(self).wf(),
            final(self).control() == polled(old(self).control(), now@, raw_pressed),
            pressed == fresh_press(old(self).control(), now@, raw_pressed),
            final(self).recorded_fault() == old(self).recorded_fault(),
            final(self).last_logged_at() == old(self).last_logged_at(),
    {
        proof {
            lemma_windows();
            now.lemma_view_range();
        }
        self.button_debouncer.poll(now, raw_pressed);
        let debounced = self.button_debouncer.is_active();
        let pressed = debounced && !self.button_was_active;
        self.button_was_active = debounced;
        pressed
    }

    /// One main-loop step at `now`: `last_potentiometer` and
    /// `last_physical_position` are the current loop's latest readings and
    /// `raw_button_pressed` the button pin's. Returns the operation to
    /// command the current loop, if the state commands one, and the rotor
    /// position, once a [`physical_position_log_interval`] (and on the very
    /// first step).
    pub fn step(
        &mut self,
        now: Uptime,
        last_potentiometer: UnitInterval,
        last_physical_position: UnitInterval,
        raw_button_pressed: bool,
    ) -> (outcome: (Option<CurrentLoopOperation>, Option<UnitInterval>))
        requires
            old(self).wf(),
            fits_i64(now@ + step_window(old(self).control().state)),
            room_after(old(self).last_logged_at(), position_log_interval()),
        ensures
            final(self).wf(),
            (final(self).control(), outcome.0) == control_step(
                old(self).control(),
                now@,
                raw_button_pressed,
                last_potentiometer.expanded(),
            ),
            outcome.1 == (if log_due(old(self).last_logged_at(), now@) {
                Some(last_physical_position)
            } else {
                None::<UnitInterval>
            }),
            final(self).last_logged_at() == (if log_due(old(self).last_logged_at(), now@) {
                Some(now@)
            } else {
                old(self).last_logged_at()
            }),
            final(self).recorded_fault() == old(self).recorded_fault(),
    {
        proof {
            lemma_windows();
        }
        let due = match self.last_logged_physical_position_at {
            None => true,
            Some(last) => {
                proof {
                    last.lemma_view_range();
                }
                now >= last + physical_position_log_interval()
            },
        };
        let position_to_log = if due {
            self.last_logged_physical_position_at = Some(now);
            Some(last_physical_position)
        } else {
            None
        };
        let ghost before = self.control();
        let operation = match self.state {
            State::NotReadyToSwitchOn => {
                let since = match self.not_ready_since {
                    Some(t) => t,
                    None => now,
                };
                proof {
                    since.lemma_view_range();
                }
                self.not_ready_since = Some(since);
                if now >= since + bias_average_duration() {
                    self.not_ready_since = None;
                    self.state = complete_initialization(self.state);
                }
                None
            },
            State::SwitchOnDisabled => {
                if self.confirmed_button_press(now, raw_button_pressed) {
                    self.state = on_confirmed_button_press(self.state);
                }
                None
            },
            State::SwitchedOn => {
                let since = match self.phase_lock_since {
                    Some(t) => t,
                    None => now,
                };
                proof {
                    since.lemma_view_range();
                    now.lemma_view_range();
                    assert(step_window(before.state) == phase_lock_settle_window());
                }
                self.phase_lock_since = Some(since);
                let settled = now >= since + phase_lock_settle_duration();
                let pressed = self.confirmed_button_press(now, raw_button_pressed);
                if settled && pressed {
                    self.phase_lock_since = None;
                    self.state = State::OperationEnabled;
                }
                Some(CurrentLoopOperation::PhaseLock)
            },
            State::OperationEnabled => {
                if self.confirmed_button_press(now, raw_button_pressed) {
                    self.state = on_confirmed_button_press(self.state);
                    Some(CurrentLoopOperation::Open)
                } else {
                    Some(CurrentLoopOperation::CurrentControl(last_potentiometer.expand()))
                }
            },
            State::QuickStopActive => {
                self.phase_lock_since = None;
                self.state = State::SwitchOnDisabled;
                Some(CurrentLoopOperation::Open)
            },
            _ => None,
        };
        proof {
            assert((self.control(), operation) == control_step(
                before,
                now@,
                raw_button_pressed,
                last_potentiometer.expanded(),
            ));
        }
        (operation, position_to_log)
    }
}

/// Every state change a main-loop step makes is one of the application's
/// DS402 transitions: out of initialization, on to switched on, on to
/// operation enabled, into quick stop, and back out of it.
pub proof fn law_state_changes_follow_the_application_transitions(
    c: Control,
    now: int,
    raw_pressed: bool,
    target: SymmetricUnitInterval,
)
    ensures
        control_step(c, now, raw_pressed, target).0.state == c.state
            || application_transition(c.state, control_step(c, now, raw_pressed, target).0.state),
{
}

/// Initialization completes only once the bias averaging window has elapsed
/// since [`State::NotReadyToSwitchOn`] was first observed, which is never on
/// that first step.
pub proof fn law_initialization_waits_out_the_bias_window(
    c: Control,
    now: int,
    raw_pressed: bool,
    target: SymmetricUnitInterval,
)
    requires
        c.state == State::NotReadyToSwitchOn,
        control_step(c, now, raw_pressed, target).0.state != State::NotReadyToSwitchOn,
    ensures
        c.not_ready_since matches Some(t) && now >= t + bias_average_window(),
{
    lemma_windows();
}

/// Operation is enabled only by a fresh press once the phase lock has been
/// held for its settling window, which is never on the step that first
/// observes [`State::SwitchedOn`].
pub proof fn law_operation_is_enabled_only_once_the_phase_lock_settled(
    c: Control,
    now: int,
    raw_pressed: bool,
    target: SymmetricUnitInterval,
)
    requires
        c.state == State::SwitchedOn,
        control_step(c, now, raw_pressed, target).0.state == State::OperationEnabled,
    ensures
        c.phase_lock_since matches Some(t) && now >= t + phase_lock_settle_window(),
        fresh_press(c, now, raw_pressed),
{
    lemma_windows();
}

/// A press still held from the previous poll confirms nothing again: in
/// each state the button drives, the state stays as it is.
pub proof fn law_a_held_press_is_confirmed_once(
    c: Control,
    now: int,
    raw_pressed: bool,
    target: SymmetricUnitInterval,
)
    requires
        c.button_was_active,
        c.state == State::SwitchOnDisabled || c.state == State::SwitchedOn || c.state
            == State::OperationEnabled,
    ensures
        !fresh_press(c, now, raw_pressed),
        control_step(c, now, raw_pressed, target).0.state == c.state,
{
}

/// Quick stop is left for [`State::SwitchOnDisabled`] on the very next
/// step, whatever the button reads, with the current loop opened and the
/// phase-lock window cleared for the next time [`State::SwitchedOn`] is
/// entered.
pub proof fn law_quick_stop_clears_unconditionally(
    c: Control,
    now: int,
    raw_pressed: bool,
    target: SymmetricUnitInterval,
)
    requires
        c.state == State::QuickStopActive,
    ensures
        control_step(c, now, raw_pressed, target).0.state == State::SwitchOnDisabled,
        control_step(c, now, raw_pressed, target).0.phase_lock_since == None::<int>,
        control_step(c, now, raw_pressed, target).1 == Some(CurrentLoopOperation::Open),
{
}

/// Which operation a main-loop step commands depends on the state alone
/// (and, once operation is enabled, on the button and the target): the
/// phase lock is commanded exactly while switched on; nothing at all while
/// initializing, while switch-on is disabled, or in any state the
/// application does not drive; the current loop is opened on a quick stop;
/// and once operation is enabled it is either opened or closed on the
/// target.
pub proof fn law_operation_commanded_in_each_state(
    c: Control,
    now: int,
    raw_pressed: bool,
    target: SymmetricUnitInterval,
)
    ensures
        (control_step(c, now, raw_pressed, target).1 == Some(CurrentLoopOperation::PhaseLock))
            <==> c.state == State::SwitchedOn,
        c.state == State::NotReadyToSwitchOn ==> control_step(c, now, raw_pressed, target).1 is None,
        c.state == State::SwitchOnDisabled ==> control_step(c, now, raw_pressed, target).1 is None,
        c.state == State::QuickStopActive ==> control_step(c, now, raw_pressed, target).1 == Some(
            CurrentLoopOperation::Open,
        ),
        c.state == State::OperationEnabled ==> (control_step(c, now, raw_pressed, target).1 == Some(
            CurrentLoopOperation::Open,
        ) || control_step(c, now, raw_pressed, target).1 == Some(
            CurrentLoopOperation::CurrentControl(target),
        )),
        (c.state == State::ReadyToSwitchOn || c.state == State::FaultReactionActive || c.state
            == State::Fault) ==> control_step(c, now, raw_pressed, target) == (c, None::<CurrentLoopOperation>),
{
}

/// While operation is enabled and no fresh press arrives, the current loop
/// is commanded to the potentiometer's target; a fresh press opens it.
pub proof fn law_operation_enabled_follows_the_potentiometer(
    c: Control,
    now: int,
    raw_pressed: bool,
    target: SymmetricUnitInterval,
)
    requires
        c.state == State::OperationEnabled,
    ensures
        !fresh_press(c, now, raw_pressed) ==> control_step(c, now, raw_pressed, target).1 == Some(
            CurrentLoopOperation::CurrentControl(target),
        ),
        fresh_press(c, now, raw_pressed) ==> control_step(c, now, raw_pressed, target).1 == Some(
            CurrentLoopOperation::Open,
        ),
{
}

/// The rotor position is logged on the first step, and after being logged
/// at `last` not again until a full interval has passed.
pub proof fn law_position_logging_is_rate_limited(last: int, now: int)
    ensures
        log_due(None, now),
        now < last + position_log_interval() ==> !log_due(Some(last), now),
        now >= last + position_log_interval() ==> log_due(Some(last), now),
{
}

/// A recorded fault is never downgraded: the fault kept is one of the two,
/// and at least as severe as each.
pub proof fn law_reported_faults_are_never_downgraded(recorded: Fault, reported: Fault)
    ensures
        worse(recorded, reported) == recorded || worse(recorded, reported) == reported,
        severity(worse(recorded, reported)) >= severity(recorded),
        severity(worse(recorded, reported)) >= severity(reported),
{
}


/// ADC1's input from the first phase's current-sense amplifier.
pub const OPAMP1_CHANNEL: u8 = 13;

/// ADC1's input from the board's potentiometer.
pub const POTENTIOMETER_CHANNEL: u8 = 11;

/// ADC2's input from the second phase's current-sense amplifier.
pub const OPAMP2_CHANNEL: u8 = 16;

/// ADC2's input from the third phase's current-sense amplifier.
pub const OPAMP3_CHANNEL: u8 = 18;

/// ADC2's input from the bus-voltage divider (PA0).
pub const VBUS_CHANNEL: u8 = 1;

/// The PWM switching frequency: 20 kHz.
pub const PWM_FREQUENCY_HZ: u32 = 20_000;

/// One complementary channel pair per motor phase.
pub const PWM_CHANNELS: u8 = 3;

/// The counts of one cycle of the motor's quadrature encoder.
pub const ENCODER_COUNTS: u32 = 128;

/// ADC1's channel sequence: the first phase's current, then the
/// potentiometer.
pub open spec fn adc1_sequence() -> Seq<u8> {
    seq![OPAMP1_CHANNEL, POTENTIOMETER_CHANNEL]
}

/// ADC2's channel sequence: the other two phases' currents, then the bus
/// voltage. It is longer than ADC1's, so it finishes last.
pub open spec fn adc2_sequence() -> Seq<u8> {
    seq![OPAMP2_CHANNEL, OPAMP3_CHANNEL, VBUS_CHANNEL]
}

/// Opens the board's converters and drivers for the motor-control
/// application: ADC1 and `adc2` (an ADC driver the board does not create)
/// on their channel sequences, converting into `adc1_samples` and
/// `adc2_samples` on every rising edge of TIM1's TRGO2, with the board's
/// DMA routing; PWM1 at
/// [`PWM_FREQUENCY_HZ`] on [`PWM_CHANNELS`] channels with the board's TIM1
/// dead time and the mid-point trigger that raises TRGO2; and the quadrature
/// encoder with channel 1 on input A, over [`ENCODER_COUNTS`] counts. Hands
/// back a fresh main loop with the clock it reads and the opened drivers.
pub fn bring_up<M>(
    board: BoardPeripherals<M>,
    adc1_samples: &'static AdcSampleBuffer,
    adc2: Adc,
    adc2_samples: &'static AdcSampleBuffer,
) -> (out: (Firmware, ClockProvider, Adc, Adc, Pwm, Quadrature, Gpio))
    ensures
        out.0.wf(),
        out.0.control() == (Control {
            state: State::NotReadyToSwitchOn,
            not_ready_since: None,
            phase_lock_since: None,
            button: (false, None),
            button_was_active: false,
        }),
        out.0.last_logged_at() == None::<int>,
        out.0.recorded_fault() == Fault::NoFault,
        out.1 == board.clock_provider,
        out.2.opened_with() matches Some(options) && options.channel_sequence() == adc1_sequence()
            && options.sample_buffer() == adc1_samples && options.trigger()
            == AdcTriggerSource::Stm32g4Tim1TriggerOut2Rising,
        out.2.state().instance() == board.adc1.state().instance(),
        out.3.opened_with() matches Some(options) && options.channel_sequence() == adc2_sequence()
            && options.sample_buffer() == adc2_samples && options.trigger()
            == AdcTriggerSource::Stm32g4Tim1TriggerOut2Rising,
        out.3.state().instance() == adc2.state().instance(),
        out.4.opened_with() matches Some(options) && options.frequency() == PWM_FREQUENCY_HZ
            && options.channel_count() == PWM_CHANNELS && options.dead_time_raw()
            == raw_of_units(230, 1_000_000_000) && options.has_mid_point_trigger(),
        forall|channel: int| #[trigger] out.4.duty(channel) == 0,
        out.4.state().timer() == board.pwm1.state().timer(),
        out.5.opened(),
        out.5.cycle_counts() == ENCODER_COUNTS,
        out.6 == board.gpio,
{
    let BoardPeripherals { gpio, clock_provider, dma, mut adc1, mut quadrature, mut pwm1, .. } = board;
    let sequence: [u8; 2] = [OPAMP1_CHANNEL, POTENTIOMETER_CHANNEL];
    proof {
        assert(sequence@ =~= adc1_sequence());
    }
    adc1.open(
        AdcOptions::new(&sequence, adc1_samples, AdcTriggerSource::Stm32g4Tim1TriggerOut2Rising),
        &dma,
    );
    let mut adc2 = adc2;
    let sequence2: [u8; 3] = [OPAMP2_CHANNEL, OPAMP3_CHANNEL, VBUS_CHANNEL];
    proof {
        assert(sequence2@ =~= adc2_sequence());
    }
    adc2.open(
        AdcOptions::new(&sequence2, adc2_samples, AdcTriggerSource::Stm32g4Tim1TriggerOut2Rising),
        &dma,
    );
    pwm1.open(PwmOptions::new(PWM_FREQUENCY_HZ, PWM_CHANNELS, tim1_dead_time(), true));
    quadrature.open(
        QuadratureOptions {
            input_configuration: QuadratureInputConfiguration::Ch12AreInputsAB,
            encoder_counts: ENCODER_COUNTS,
        },
    );
    (Firmware::new(), clock_provider, adc1, adc2, pwm1, quadrature, gpio)
}

} // verus!
