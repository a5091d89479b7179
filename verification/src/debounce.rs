//! A two-threshold (asymmetric) boolean-signal debouncer. It has no clock
//! of its own: the caller supplies the current time to every
//! [`Debouncer::poll`] call.
use vstd::prelude::*;
use crate::duration::{fits_i64, Duration};
use crate::uptime::Uptime;

verus! {

/// The debouncer's state: the confirmed value, and the raw value being
/// debounced together with the time (raw [`Uptime`] units) at which it
/// becomes confirmed if it holds that long.
pub type DebounceState = (bool, Option<(bool, int)>);

/// The threshold a pending change towards `raw_active` must hold for.
pub open spec fn threshold_for(
    raw_active: bool,
    inactive_to_active: int,
    active_to_inactive: int,
) -> int {
    if raw_active {
        inactive_to_active
    } else {
        active_to_inactive
    }
}

/// Whether a poll with `raw_active` (re)starts the wait instead of
/// continuing one already pending for the same value.
pub open spec fn restarts_wait(state: DebounceState, raw_active: bool) -> bool {
    match state.1 {
        Some((candidate, _)) => candidate != raw_active,
        None => true,
    }
}

/// Whether a state is one a debouncer can be in: a pending change is always
/// towards the value that is not confirmed.
pub open spec fn consistent(state: DebounceState) -> bool {
    state.1 matches Some((candidate, _)) ==> candidate != state.0
}

/// The state after one raw reading `raw_active` taken at `now`.
pub open spec fn poll_step(
    state: DebounceState,
    inactive_to_active: int,
    active_to_inactive: int,
    now: int,
    raw_active: bool,
) -> DebounceState {
    match state.1 {
        Some((candidate, deadline)) if candidate == raw_active => {
            if now >= deadline {
                (candidate, None)
            } else {
                state
            }
        },
        _ => {
            if raw_active == state.0 {
                (state.0, None)
            } else {
                (
                    state.0,
                    Some(
                        (
                            raw_active,
                            now + threshold_for(raw_active, inactive_to_active, active_to_inactive),
                        ),
                    ),
                )
            }
        },
    }
}

/// Debounces a boolean signal (e.g. a push-button reading): a raw value only
/// becomes the confirmed value once it has been observed continuously for
/// at least the relevant threshold — `inactive_to_active` for a
/// `false -> true` transition, `active_to_inactive` for the reverse.
pub struct Debouncer {
    inactive_to_active: Duration,
    active_to_inactive: Duration,
    confirmed_active: bool,
    /// The raw value being debounced and the [`Uptime`] at which it becomes
    /// confirmed if it holds that long — `None` while the raw reading
    /// already matches `confirmed_active`.
    pending: Option<(bool, Uptime)>,
}

impl Debouncer {
    /// A pending change is towards the value that is not confirmed.
    #[verifier::type_invariant]
    spec fn pending_differs(self) -> bool {
        consistent(self.state())
    }

    /// The confirmed value and the pending change, if any.
    pub closed spec fn state(&self) -> DebounceState {
        (
            self.confirmed_active,
            match self.pending {
                Some((candidate, deadline)) => Some((candidate, deadline@)),
                None => None,
            },
        )
    }

    /// The threshold for a `false -> true` transition (raw units).
    pub closed spec fn inactive_to_active(&self) -> int {
        self.inactive_to_active@
    }

    /// The threshold for a `true -> false` transition (raw units).
    pub closed spec fn active_to_inactive(&self) -> int {
        self.active_to_inactive@
    }

    /// Builds a `Debouncer`, initially confirmed inactive with nothing
    /// pending.
    pub fn new(inactive_to_active: Duration, active_to_inactive: Duration) -> (debouncer: Self)
        ensures
            debouncer.state() == (false, None::<(bool, int)>),
            consistent(debouncer.state()),
            debouncer.inactive_to_active() == inactive_to_active@,
            debouncer.active_to_inactive() == active_to_inactive@,
    {
        Debouncer { inactive_to_active, active_to_inactive, confirmed_active: false, pending: None }
    }

    /// Feeds in one raw reading taken at `now`. A change is never confirmed
    /// on the very call it is first observed on (even with a zero
    /// threshold): a later poll, at the same or a later `now`, confirms it.
    /// The deadline of a newly observed change must fit an [`Uptime`].
    pub fn poll(&mut self, now: Uptime, raw_active: bool)
        requires
            restarts_wait(old(self).state(), raw_active) && raw_active != old(self).state().0
                ==> fits_i64(
                now@ + threshold_for(
                    raw_active,
                    old(self).inactive_to_active(),
                    old(self).active_to_inactive(),
                ),
            ),
        ensures
            final(self).state() == poll_step(
                old(self).state(),
                old(self).inactive_to_active(),
                old(self).active_to_inactive(),
                now@,
                raw_active,
            ),
            final(self).inactive_to_active() == old(self).inactive_to_active(),
            final(self).active_to_inactive() == old(self).active_to_inactive(),
            consistent(old(self).state()),
            consistent(final(self).state()),
    {
        proof {
            use_type_invariant(&*self);
        }
        match self.pending {
            Some((candidate, deadline)) if candidate == raw_active => {
                if now >= deadline {
                    self.pending = None;
                    self.confirmed_active = candidate;
                }
            },
            _ => {
                self.pending = if raw_active == self.confirmed_active {
                    None
                } else {
                    let threshold = if raw_active {
                        self.inactive_to_active
                    } else {
                        self.active_to_inactive
                    };
                    Some((raw_active, now + threshold))
                };
            },
        }
    }

    /// The confirmed value as of the last [`Self::poll`] call (`false` if
    /// never polled).
    pub fn is_active(&self) -> (active: bool)
        ensures
            active == self.state().0,
            consistent(self.state()),
    {
        proof {
            use_type_invariant(self);
        }
        self.confirmed_active
    }
}

/// A change is never confirmed on the poll that first observes it, even
/// with a zero threshold: a poll that (re)starts the wait leaves the
/// confirmed value as it was.
pub proof fn law_first_observation_never_confirms(
    state: DebounceState,
    inactive_to_active: int,
    active_to_inactive: int,
    now: int,
    raw_active: bool,
)
    requires
        restarts_wait(state, raw_active),
    ensures
        poll_step(state, inactive_to_active, active_to_inactive, now, raw_active).0 == state.0,
{
}

/// The confirmed value only ever changes to a raw value that was pending,
/// and only once its deadline has been reached.
pub proof fn law_confirms_only_after_the_deadline(
    state: DebounceState,
    inactive_to_active: int,
    active_to_inactive: int,
    now: int,
    raw_active: bool,
)
    requires
        poll_step(state, inactive_to_active, active_to_inactive, now, raw_active).0 != state.0,
    ensures
        state.1 matches Some((candidate, deadline)) && candidate == raw_active && now >= deadline,
        poll_step(state, inactive_to_active, active_to_inactive, now, raw_active).0 == raw_active,
{
}

/// A raw value that differs from the confirmed one and is then observed
/// again once its threshold has elapsed becomes the confirmed value.
pub proof fn law_holding_a_change_for_its_threshold_confirms_it(
    state: DebounceState,
    inactive_to_active: int,
    active_to_inactive: int,
    first: int,
    later: int,
    raw_active: bool,
)
    requires
        raw_active != state.0,
        restarts_wait(state, raw_active),
        later >= first + threshold_for(raw_active, inactive_to_active, active_to_inactive),
    ensures
        poll_step(
            poll_step(state, inactive_to_active, active_to_inactive, first, raw_active),
            inactive_to_active,
            active_to_inactive,
            later,
            raw_active,
        ) == (raw_active, None::<(bool, int)>),
{
}

/// A reading that matches the confirmed value cancels any pending change.
pub proof fn law_matching_reading_cancels_a_pending_change(
    state: DebounceState,
    inactive_to_active: int,
    active_to_inactive: int,
    now: int,
)
    requires
        restarts_wait(state, state.0),
    ensures
        poll_step(state, inactive_to_active, active_to_inactive, now, state.0) == (
            state.0,
            None::<(bool, int)>,
        ),
{
}


/// One poll, on a state a debouncer can be in: a reading that matches the
/// confirmed value keeps it and cancels any pending change; a differing
/// reading becomes the confirmed value exactly when a change to it was
/// already pending and its deadline has been reached, and otherwise the
/// confirmed value stays. The state after is one a debouncer can be in.
pub proof fn law_poll_step(
    state: DebounceState,
    inactive_to_active: int,
    active_to_inactive: int,
    now: int,
    raw_active: bool,
)
    requires
        consistent(state),
    ensures
        consistent(poll_step(state, inactive_to_active, active_to_inactive, now, raw_active)),
        raw_active == state.0 ==> poll_step(state, inactive_to_active, active_to_inactive, now, raw_active)
            == (state.0, None::<(bool, int)>),
        raw_active != state.0 ==> (poll_step(
            state,
            inactive_to_active,
            active_to_inactive,
            now,
            raw_active,
        ).0 == raw_active <==> (state.1 matches Some((candidate, deadline)) && candidate == raw_active
            && now >= deadline)),
{
}

/// The state after each of `readings` (a time and a raw value) is polled
/// in turn, starting from `state`.
pub open spec fn poll_all(
    state: DebounceState,
    inactive_to_active: int,
    active_to_inactive: int,
    readings: Seq<(int, bool)>,
) -> DebounceState
    decreases readings.len(),
{
    if readings.len() == 0 {
        state
    } else {
        poll_step(
            poll_all(state, inactive_to_active, active_to_inactive, readings.drop_last()),
            inactive_to_active,
            active_to_inactive,
            readings.last().0,
            readings.last().1,
        )
    }
}

/// The raw value of the last of `readings` whose poll changed the confirmed
/// value, or the confirmed value of `state` if none did.
pub open spec fn last_confirmed(
    state: DebounceState,
    inactive_to_active: int,
    active_to_inactive: int,
    readings: Seq<(int, bool)>,
) -> bool
    decreases readings.len(),
{
    if readings.len() == 0 {
        state.0
    } else {
        let before = poll_all(state, inactive_to_active, active_to_inactive, readings.drop_last());
        if poll_step(before, inactive_to_active, active_to_inactive, readings.last().0, readings.last().1).0
            != before.0 {
            readings.last().1
        } else {
            last_confirmed(state, inactive_to_active, active_to_inactive, readings.drop_last())
        }
    }
}

/// After any history of polls, the confirmed value is the raw value
/// committed by the most recent poll that confirmed a change, or the value
/// confirmed before them if none did (`false` for a new debouncer).
pub proof fn law_confirmed_value_is_the_last_confirmed_reading(
    state: DebounceState,
    inactive_to_active: int,
    active_to_inactive: int,
    readings: Seq<(int, bool)>,
)
    ensures
        poll_all(state, inactive_to_active, active_to_inactive, readings).0 == last_confirmed(
            state,
            inactive_to_active,
            active_to_inactive,
            readings,
        ),
    decreases readings.len(),
{
    if readings.len() > 0 {
        let before = poll_all(state, inactive_to_active, active_to_inactive, readings.drop_last());
        law_confirmed_value_is_the_last_confirmed_reading(
            state,
            inactive_to_active,
            active_to_inactive,
            readings.drop_last(),
        );
        if poll_step(before, inactive_to_active, active_to_inactive, readings.last().0, readings.last().1).0
            != before.0 {
            law_confirms_only_after_the_deadline(
                before,
                inactive_to_active,
                active_to_inactive,
                readings.last().0,
                readings.last().1,
            );
        }
    }
}

} // verus!
