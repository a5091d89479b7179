//! Hardware-agnostic clock API: a free-running tick counter that wraps every
//! 2^32 ticks, turned into [`Uptime`] readings against a reference point
//! (see [`crate::duration_from_ticks::DurationFromTicks`]) that a clock
//! provider keeps fresh.
use vstd::prelude::*;
use crate::duration::Duration;
use crate::uptime::Uptime;

verus! {

/// The value a free-running 32-bit counter reads one tick after `ticks`.
pub open spec fn next_tick(ticks: u32) -> u32 {
    if ticks == u32::MAX {
        0
    } else {
        (ticks + 1) as u32
    }
}

/// The interface every clock view implements.
///
/// A view is described by the last value its counter read
/// ([`Self::counter`]), the raw [`Uptime`] each counter value stands for
/// against the current reference point ([`Self::uptime_at`]), and its
/// frequency. Reading the counter moves it on by one tick and leaves the
/// reference point alone.
pub trait ClockTrait {
    /// The value [`Self::ticks_now`] last returned.
    spec fn counter(&self) -> u32;

    /// The raw [`Uptime`] that the counter value `ticks` stands for.
    spec fn uptime_at(&self, ticks: u32) -> int;

    /// Whether the reading at `ticks` fits an [`Uptime`].
    spec fn convertible(&self, ticks: u32) -> bool;

    /// Whether [`Self::wait_for`] can wait out `delay` before the counter
    /// wraps past the reference point.
    spec fn can_wait(&self, delay: Duration) -> bool;

    /// The counter's frequency in Hz.
    spec fn frequency(&self) -> nat;

    /// The current [`Uptime`] (time elapsed since boot): the time at the
    /// next counter reading.
    fn now(&mut self) -> (time: Uptime)
        requires
            old(self).convertible(next_tick(old(self).counter())),
        ensures
            final(self).counter() == next_tick(old(self).counter()),
            time@ == final(self).uptime_at(final(self).counter()),
            forall|t: u32| #[trigger] final(self).uptime_at(t) == old(self).uptime_at(t),
            forall|t: u32| #[trigger] final(self).convertible(t) == old(self).convertible(t),
            final(self).frequency() == old(self).frequency(),
    ;

    /// Busy-waits until [`Self::now`] has advanced by at least `delay` past
    /// where it stood when this was called.
    fn wait_for(&mut self, delay: Duration)
        requires
            old(self).can_wait(delay),
        ensures
            final(self).uptime_at(final(self).counter()) >= old(self).uptime_at(
                next_tick(old(self).counter()),
            ) + delay@,
            forall|t: u32| #[trigger] final(self).uptime_at(t) == old(self).uptime_at(t),
            forall|t: u32| #[trigger] final(self).convertible(t) == old(self).convertible(t),
            final(self).frequency() == old(self).frequency(),
    ;

    /// Reads the free-running hardware tick counter, which moves on by one
    /// tick per read.
    fn ticks_now(&mut self) -> (ticks: u32)
        ensures
            ticks == next_tick(old(self).counter()),
            final(self).counter() == ticks,
            forall|t: u32| #[trigger] final(self).uptime_at(t) == old(self).uptime_at(t),
            forall|t: u32| #[trigger] final(self).convertible(t) == old(self).convertible(t),
            final(self).frequency() == old(self).frequency(),
    ;

    /// The [`Uptime`] a tick count read through [`Self::ticks_now`] stands
    /// for.
    fn time_at(&self, ticks: u32) -> (time: Uptime)
        requires
            self.convertible(ticks),
        ensures
            time@ == self.uptime_at(ticks),
    ;

    /// The counter's frequency in Hz, fixed for the driver's lifetime.
    fn ticks_per_second(&self) -> (hz: u32)
        ensures
            hz == self.frequency(),
    ;
}

/// Owns the reference point every clock view it hands out reads from.
pub trait ClockProviderTrait {
    /// The clock view type this provider hands out.
    type Clock: ClockTrait;

    /// Whether the reference point can be moved to the next counter
    /// reading without the time overflowing.
    spec fn can_advance(&self) -> bool;

    /// The raw [`Uptime`] of the reference point.
    spec fn reference_time(&self) -> int;

    /// The raw [`Uptime`] the next counter reading stands for against the
    /// reference point.
    spec fn next_reading_time(&self) -> int;

    /// Folds the current tick count into the reference point: the counter
    /// is read once more, and the reference point moves to that reading,
    /// keeping the time it stands for. Must be called often enough that the
    /// counter cannot wrap more than once between calls.
    fn advance_reference_point(&mut self)
        requires
            old(self).can_advance(),
        ensures
            final(self).reference_time() == old(self).next_reading_time(),
    ;
}

} // verus!
