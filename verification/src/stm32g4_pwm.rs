//! How the STM32G4 PWM driver sets up an advanced-control timer's output
//! stages for a [`crate::pwm::PwmOptions`] (RM0440 28.6): each timer
//! channel's output-compare mode (`CCMRx`), which outputs are enabled
//! (`CCER`), and where channel 5 compares for the mid-point trigger
//! (`CCR5`). Channels 1 to 4 are indices 0 to 3; channel 5, which has no
//! pin and only drives the mid-point trigger, is index 4.
use vstd::prelude::*;

verus! {

/// The timer channel whose internal reference drives the mid-point trigger.
pub const MID_POINT_CHANNEL: u8 = 4;

/// How many counter ticks either side of the counter's peak channel 5's
/// reference is active, so that the trigger pulse is wide enough to be seen.
pub const MID_POINT_TRIGGER_HALF_WIDTH_TICKS: u16 = 8;

/// An output-compare mode (`OCxM`).
#[derive(Debug, Clone, Copy, PartialEq, Eq, Structural)]
pub enum OutputCompareMode {
    /// Active while the counter is below the compare value.
    PwmMode1,
    /// Active while the counter is at or above the compare value.
    PwmMode2,
}

/// How channel `index` is set up, if at all: the mode and whether its
/// compare value is preloaded (shadowed until the next update event).
/// Each configured output channel runs in PWM mode 1 with preload, so a new
/// duty cycle never cuts a pulse short; channel 5 runs in PWM mode 2 when
/// the mid-point trigger is on.
pub open spec fn compare_setting(channels: int, mid_point_trigger: bool, index: int) -> Option<(OutputCompareMode, bool)> {
    if 0 <= index < channels {
        Some((OutputCompareMode::PwmMode1, true))
    } else if index == MID_POINT_CHANNEL && mid_point_trigger {
        Some((OutputCompareMode::PwmMode2, false))
    } else {
        None
    }
}

/// The output-compare setting of timer channel `index` (see
/// [`compare_setting`]) for `channels` output channels, at most the
/// timer's four.
pub fn output_compare_setting(channels: u8, mid_point_trigger: bool, index: u8) -> (setting: Option<(OutputCompareMode, bool)>)
    requires
        channels <= 4,
    ensures
        setting == compare_setting(channels as int, mid_point_trigger, index as int),
{
    if index < channels {
        Some((OutputCompareMode::PwmMode1, true))
    } else if index == MID_POINT_CHANNEL && mid_point_trigger {
        Some((OutputCompareMode::PwmMode2, false))
    } else {
        None
    }
}

/// Which of channel `index`'s outputs `CCER` enables: the main output and
/// the complementary one, both active high. Each configured output channel
/// drives both; channel 5, which has no complementary output, enables only
/// its main output (which gates its internal reference) for the mid-point
/// trigger; every other channel stays disabled.
pub open spec fn enabled_outputs(channels: int, mid_point_trigger: bool, index: int) -> (bool, bool) {
    if 0 <= index < channels {
        (true, true)
    } else if index == MID_POINT_CHANNEL && mid_point_trigger {
        (true, false)
    } else {
        (false, false)
    }
}

/// The outputs `CCER` enables for channel `index` (see
/// [`enabled_outputs`]).
pub fn output_enables(channels: u8, mid_point_trigger: bool, index: u8) -> (enables: (bool, bool))
    requires
        channels <= 4,
    ensures
        enables == enabled_outputs(channels as int, mid_point_trigger, index as int),
{
    if index < channels {
        (true, true)
    } else if index == MID_POINT_CHANNEL && mid_point_trigger {
        (true, false)
    } else {
        (false, false)
    }
}

/// Channel 5's compare value: [`MID_POINT_TRIGGER_HALF_WIDTH_TICKS`] short
/// of the auto-reload value `arr` (the counter's peak), or 0 for a smaller
/// `arr`.
pub fn mid_point_compare_value(arr: u16) -> (ccr5: u16)
    ensures
        ccr5 == if arr >= MID_POINT_TRIGGER_HALF_WIDTH_TICKS {
            arr - MID_POINT_TRIGGER_HALF_WIDTH_TICKS
        } else {
            0
        },
{
    arr.saturating_sub(MID_POINT_TRIGGER_HALF_WIDTH_TICKS)
}

/// No output channel's setup reaches channel 5: it is set up for the
/// mid-point trigger alone.
pub proof fn law_mid_point_channel_is_not_an_output(channels: int, mid_point_trigger: bool)
    requires
        0 <= channels <= 4,
    ensures
        compare_setting(channels, mid_point_trigger, MID_POINT_CHANNEL as int) == if mid_point_trigger {
            Some((OutputCompareMode::PwmMode2, false))
        } else {
            None::<(OutputCompareMode, bool)>
        },
        enabled_outputs(channels, mid_point_trigger, MID_POINT_CHANNEL as int) == (mid_point_trigger, false),
{
}

} // verus!
