use rust_embedded::clock::{ClockProviderTrait, ClockTrait};
use rust_embedded::ds402::State;
use rust_embedded::duration::Duration;
use rust_embedded::esc1_discovery::MCU_FREQUENCY;
use rust_embedded::fake_clock::ClockProvider;
use rust_embedded::motor_control::{
    bias_average_duration, complete_initialization, more_severe, on_confirmed_button_press,
    phase_lock_settle_duration, physical_position_log_interval, CurrentLoopOperation, Fault,
    Firmware,
};
use rust_embedded::unit_interval::UnitInterval;
use rust_embedded::uptime::Uptime;

const ALL_DS402_STATES: [State; 8] = [
    State::NotReadyToSwitchOn,
    State::SwitchOnDisabled,
    State::ReadyToSwitchOn,
    State::SwitchedOn,
    State::OperationEnabled,
    State::QuickStopActive,
    State::FaultReactionActive,
    State::Fault,
];

/// The main loop around a `Firmware`: a simulated clock that moves on by a
/// fixed step between iterations, the readings the current loop last
/// published, the button pin, and the operation last commanded.
struct MainLoop {
    clock: ClockProvider,
    firmware: Firmware,
    button: bool,
    last_potentiometer: UnitInterval,
    current_loop_operation: CurrentLoopOperation,
}

impl MainLoop {
    fn new() -> Self {
        MainLoop {
            clock: ClockProvider::new((), MCU_FREQUENCY),
            firmware: Firmware::new(),
            button: false,
            last_potentiometer: UnitInterval::new(0),
            current_loop_operation: CurrentLoopOperation::Open,
        }
    }

    fn step(&mut self) {
        self.clock.fake_mut().advance_by(Duration::from_micros(100));
        self.clock.advance_reference_point();
        let now = self.clock.get_clock().now();
        let (operation, _logged) = self.firmware.step(
            now,
            self.last_potentiometer,
            UnitInterval::new(0),
            self.button,
        );
        if let Some(operation) = operation {
            self.current_loop_operation = operation;
        }
    }

    fn advance_until(&mut self, mut predicate: impl FnMut(&MainLoop) -> bool) {
        for _ in 0..100_000 {
            self.step();
            if predicate(self) {
                return;
            }
        }
        panic!("predicate was never satisfied within the iteration cap");
    }

    fn advance_generously(&mut self) {
        for _ in 0..2_000 {
            self.step();
        }
    }

    fn press_button_until(&mut self, predicate: impl FnMut(&MainLoop) -> bool) {
        self.button = true;
        self.advance_until(predicate);
        self.button = false;
        self.advance_until(|l| !l.firmware.button_was_active());
    }

    fn advance_to_operation_enabled(&mut self) {
        self.advance_until(|l| l.firmware.state() == State::SwitchOnDisabled);
        self.press_button_until(|l| l.firmware.state() == State::SwitchedOn);
        self.advance_generously();
        self.press_button_until(|l| l.firmware.state() == State::OperationEnabled);
    }
}

fn uptime_millis(millis: i32) -> Uptime {
    Uptime::epoch() + Duration::from_millis(millis)
}

#[test]
fn complete_initialization_only_transitions_out_of_not_ready() {
    for state in ALL_DS402_STATES {
        let expected = if state == State::NotReadyToSwitchOn {
            State::SwitchOnDisabled
        } else {
            state
        };
        assert_eq!(complete_initialization(state), expected, "{state:?}");
    }
}

#[test]
fn confirmed_button_press_cascades_switch_on_disabled_to_switched_on() {
    assert_eq!(on_confirmed_button_press(State::SwitchOnDisabled), State::SwitchedOn);
}

#[test]
fn confirmed_button_press_from_operation_enabled_enters_quick_stop_active() {
    assert_eq!(on_confirmed_button_press(State::OperationEnabled), State::QuickStopActive);
}

#[test]
fn confirmed_button_press_is_a_no_op_from_every_other_state() {
    for state in ALL_DS402_STATES {
        if matches!(state, State::SwitchOnDisabled | State::OperationEnabled) {
            continue;
        }
        assert_eq!(on_confirmed_button_press(state), state, "{state:?}");
    }
}

#[test]
fn firmware_report_fault_keeps_the_more_severe_of_the_two_faults() {
    let mut firmware = Firmware::new();

    firmware.report_fault(Fault::AdcConversionIncomplete);
    assert_eq!(firmware.fault(), Fault::AdcConversionIncomplete);

    // Reporting no fault afterward doesn't downgrade an already-recorded one.
    firmware.report_fault(Fault::NoFault);
    assert_eq!(firmware.fault(), Fault::AdcConversionIncomplete);
}

#[test]
fn firmware_leaves_not_ready_to_switch_on_after_the_bias_average_window() {
    let mut main_loop = MainLoop::new();
    main_loop.advance_until(|l| l.firmware.state() == State::SwitchOnDisabled);
    assert_eq!(main_loop.firmware.state(), State::SwitchOnDisabled);
    assert_eq!(main_loop.current_loop_operation, CurrentLoopOperation::Open);
}

#[test]
fn firmware_waits_for_a_confirmed_button_press_in_switch_on_disabled() {
    let mut main_loop = MainLoop::new();
    main_loop.advance_until(|l| l.firmware.state() == State::SwitchOnDisabled);

    main_loop.button = false;
    for _ in 0..1000 {
        main_loop.step();
    }
    assert_eq!(main_loop.firmware.state(), State::SwitchOnDisabled);

    main_loop.button = true;
    main_loop.advance_until(|l| l.firmware.state() == State::SwitchedOn);
    assert_eq!(main_loop.firmware.state(), State::SwitchedOn);
}

#[test]
fn firmware_commands_current_control_from_the_potentiometer_while_operation_enabled() {
    let mut main_loop = MainLoop::new();
    main_loop.advance_to_operation_enabled();

    let pot = UnitInterval::new(0x4000_0000);
    main_loop.last_potentiometer = pot;
    main_loop.step();

    assert_eq!(
        main_loop.current_loop_operation,
        CurrentLoopOperation::CurrentControl(pot.expand())
    );
}

#[test]
fn firmware_enters_quick_stop_active_on_a_second_confirmed_press() {
    let mut main_loop = MainLoop::new();
    main_loop.advance_to_operation_enabled();
    main_loop.button = true;
    main_loop.advance_until(|l| l.firmware.state() == State::QuickStopActive);

    assert_eq!(main_loop.firmware.state(), State::QuickStopActive);
    assert_eq!(main_loop.current_loop_operation, CurrentLoopOperation::Open);
}

#[test]
fn quick_stop_active_automatically_clears_back_to_switch_on_disabled() {
    let mut main_loop = MainLoop::new();
    main_loop.advance_to_operation_enabled();
    main_loop.button = true;
    main_loop.advance_until(|l| l.firmware.state() == State::QuickStopActive);

    // The button is still held down, and the transition happens anyway.
    main_loop.advance_until(|l| l.firmware.state() == State::SwitchOnDisabled);
    assert_eq!(main_loop.firmware.state(), State::SwitchOnDisabled);
    assert_eq!(main_loop.current_loop_operation, CurrentLoopOperation::Open);
}

#[test]
fn switched_on_phase_locks_and_only_enables_operation_once_settled() {
    let mut main_loop = MainLoop::new();
    main_loop.advance_until(|l| l.firmware.state() == State::SwitchOnDisabled);
    main_loop.press_button_until(|l| l.firmware.state() == State::SwitchedOn);
    assert_eq!(main_loop.current_loop_operation, CurrentLoopOperation::PhaseLock);

    // A press well within the settle window doesn't advance any further.
    main_loop.button = true;
    for _ in 0..5 {
        main_loop.step();
    }
    assert_eq!(main_loop.firmware.state(), State::SwitchedOn);
    main_loop.button = false;
    main_loop.advance_until(|l| !l.firmware.button_was_active());

    // Once settled, a fresh press enables operation.
    main_loop.advance_generously();
    main_loop.press_button_until(|l| l.firmware.state() == State::OperationEnabled);
}

#[test]
fn firmware_step_logs_the_physical_position_on_the_first_call_then_rate_limits() {
    let mut firmware = Firmware::new();
    let position = UnitInterval::new(0x4000_0000);
    let now = uptime_millis(1);

    let (_operation, logged) = firmware.step(now, UnitInterval::new(0), position, false);
    assert_eq!(logged, Some(position));

    // Immediately again: not yet due.
    let (_operation, logged) = firmware.step(now, UnitInterval::new(0), position, false);
    assert_eq!(logged, None);
}

#[test]
fn the_position_is_logged_again_exactly_one_interval_later() {
    let mut firmware = Firmware::new();
    let position = UnitInterval::new(7);
    let start = uptime_millis(10);
    assert_eq!(firmware.step(start, UnitInterval::new(0), position, false).1, Some(position));
    let almost = start + physical_position_log_interval() - Duration::new(1);
    assert_eq!(firmware.step(almost, UnitInterval::new(0), position, false).1, None);
    let due = start + physical_position_log_interval();
    assert_eq!(firmware.step(due, UnitInterval::new(0), position, false).1, Some(position));
    // The interval restarts from the last logged step.
    assert_eq!(firmware.step(due, UnitInterval::new(0), position, false).1, None);
}

#[test]
fn initialization_completes_exactly_when_the_bias_window_has_elapsed() {
    let mut firmware = Firmware::new();
    let start = uptime_millis(100);
    let zero = UnitInterval::new(0);
    // The first step starts the window and never completes it.
    assert_eq!(firmware.step(start, zero, zero, false).0, None);
    assert_eq!(firmware.state(), State::NotReadyToSwitchOn);
    let almost = start + bias_average_duration() - Duration::new(1);
    firmware.step(almost, zero, zero, false);
    assert_eq!(firmware.state(), State::NotReadyToSwitchOn);
    firmware.step(start + bias_average_duration(), zero, zero, false);
    assert_eq!(firmware.state(), State::SwitchOnDisabled);
}

#[test]
fn a_held_press_is_acted_on_once() {
    let mut firmware = Firmware::new();
    let zero = UnitInterval::new(0);
    let mut now = uptime_millis(0);
    let tick = Duration::from_millis(1);
    // Through initialization.
    while firmware.state() == State::NotReadyToSwitchOn {
        now = now + tick;
        firmware.step(now, zero, zero, false);
    }
    // Hold the button: SwitchOnDisabled -> SwitchedOn once, and the press
    // held through the settle window never enables operation.
    for _ in 0..200 {
        now = now + tick;
        firmware.step(now, zero, zero, true);
    }
    assert_eq!(firmware.state(), State::SwitchedOn);
    assert!(firmware.button_was_active());
}

#[test]
fn a_press_confirmed_before_the_phase_lock_settles_is_dropped() {
    let mut firmware = Firmware::new();
    let zero = UnitInterval::new(0);
    let mut now = uptime_millis(0);
    let tick = Duration::from_millis(1);
    while firmware.state() == State::NotReadyToSwitchOn {
        now = now + tick;
        firmware.step(now, zero, zero, false);
    }
    while firmware.state() == State::SwitchOnDisabled {
        now = now + tick;
        firmware.step(now, zero, zero, true);
    }
    // Release until the debouncer confirms it, phase-locking throughout.
    now = now + tick;
    let first_switched_on_step = now;
    assert_eq!(
        firmware.step(now, zero, zero, false).0,
        Some(CurrentLoopOperation::PhaseLock)
    );
    while firmware.button_was_active() {
        now = now + tick;
        assert_eq!(
            firmware.step(now, zero, zero, false).0,
            Some(CurrentLoopOperation::PhaseLock)
        );
    }
    // A press confirmed before the window has elapsed is not acted on, and
    // holding it on past the window does not act on it either.
    let mut confirmed_at = now;
    while !firmware.button_was_active() {
        now = now + tick;
        firmware.step(now, zero, zero, true);
        confirmed_at = now;
    }
    assert!(confirmed_at < first_switched_on_step + phase_lock_settle_duration());
    assert_eq!(firmware.state(), State::SwitchedOn);
    for _ in 0..60 {
        now = now + tick;
        firmware.step(now, zero, zero, true);
    }
    assert_eq!(firmware.state(), State::SwitchedOn);
    // Released and pressed afresh past the window, it enables operation.
    while firmware.button_was_active() {
        now = now + tick;
        firmware.step(now, zero, zero, false);
    }
    while firmware.state() == State::SwitchedOn {
        now = now + tick;
        firmware.step(now, zero, zero, true);
    }
    assert_eq!(firmware.state(), State::OperationEnabled);
    assert!(now >= first_switched_on_step + phase_lock_settle_duration());
}

#[test]
fn more_severe_keeps_the_worse_fault_either_way_round() {
    assert_eq!(
        more_severe(Fault::NoFault, Fault::AdcConversionIncomplete),
        Fault::AdcConversionIncomplete
    );
    assert_eq!(
        more_severe(Fault::AdcConversionIncomplete, Fault::NoFault),
        Fault::AdcConversionIncomplete
    );
    assert_eq!(more_severe(Fault::NoFault, Fault::NoFault), Fault::NoFault);
}
