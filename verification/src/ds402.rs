//! The DS402 (CiA 402) device-control states. Which of the standard's
//! transitions an application drives, and what triggers each one, is up to
//! the application.
use vstd::prelude::*;

verus! {

/// The DS402 device-control state.
#[derive(Debug, Clone, Copy, PartialEq, Eq, Structural)]
pub enum State {
    /// Initialization has not completed; the axis is not ready to switch on.
    NotReadyToSwitchOn,
    /// Parameters can be transferred and the bus voltage switched on; motion
    /// functions cannot be carried out yet.
    SwitchOnDisabled,
    /// Bus voltage may be switched on; motion functions cannot be carried
    /// out yet.
    ReadyToSwitchOn,
    /// Bus voltage must be switched on; motion functions cannot be carried
    /// out yet.
    SwitchedOn,
    /// No fault present; output stage and motion functions are enabled.
    OperationEnabled,
    /// Stopped with the emergency ramp; output stage enabled, motion
    /// functions not enabled.
    QuickStopActive,
    /// A fault has occurred; the drive is stopping with the quick stop ramp.
    FaultReactionActive,
    /// A fault is active; the drive has been stopped and disabled.
    Fault,
}

} // verus!
