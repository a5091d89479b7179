//! Points in time, as the duration elapsed since boot.
use vstd::prelude::*;
use core::cmp::Ordering;
use core::ops::{Add, Sub};
use vstd::std_specs::cmp::PartialOrdSpecImpl;
use vstd::std_specs::ops::{AddSpecImpl, SubSpecImpl};
use crate::duration::{fits_i64, fraction_in_units, second, Duration};

verus! {

/// A point in time expressed as the [`Duration`] elapsed since boot.
#[derive(Debug, Clone, Copy, PartialEq, Eq, Structural, Ord, Default)]
pub struct Uptime(Duration);

impl View for Uptime {
    type V = int;

    /// The raw duration since boot (1 raw unit = 1 / 2^32 second).
    closed spec fn view(&self) -> int {
        self.0@
    }
}

impl Uptime {
    /// Two points in time with the same raw value are the same point.
    pub proof fn lemma_view_injective(self, other: Self)
        requires
            self@ == other@,
        ensures
            self == other,
    {
        self.0.lemma_view_injective(other.0);
    }

    /// Every point in time's raw value fits an `i64`.
    pub proof fn lemma_view_range(self)
        ensures
            fits_i64(self@),
    {
        self.0.lemma_view_range();
    }

    /// The `Uptime` at boot, i.e. zero time elapsed.
    pub fn epoch() -> (u: Self)
        ensures
            u@ == 0,
    {
        Uptime(Duration::new(0))
    }

    /// Whole seconds since boot, rounded down.
    pub fn seconds(self) -> (seconds: i32)
        ensures
            seconds == self@ / second(),
    {
        self.0.seconds()
    }

    /// Fractional part of a second since boot, as a fraction of 2^32.
    pub fn fraction(self) -> (fraction: u32)
        ensures
            fraction == self@ % second(),
    {
        self.0.fraction()
    }

    /// Fractional part of a second since boot in milliseconds, rounded
    /// down: always in `0..=999`.
    pub fn fraction_as_millis(self) -> (millis: u32)
        ensures
            millis == fraction_in_units(self@ % second(), 1_000),
            millis < 1_000,
    {
        self.0.fraction_as_millis()
    }

    /// Fractional part of a second since boot in microseconds, rounded
    /// down: always in `0..=999_999`.
    pub fn fraction_as_micros(self) -> (micros: u32)
        ensures
            micros == fraction_in_units(self@ % second(), 1_000_000),
            micros < 1_000_000,
    {
        self.0.fraction_as_micros()
    }

    /// Fractional part of a second since boot in nanoseconds, rounded down:
    /// always in `0..=999_999_999`.
    pub fn fraction_as_nanos(self) -> (nanos: u32)
        ensures
            nanos == fraction_in_units(self@ % second(), 1_000_000_000),
            nanos < 1_000_000_000,
    {
        self.0.fraction_as_nanos()
    }
}

impl Add<Duration> for Uptime {
    type Output = Uptime;

    fn add(self, rhs: Duration) -> (later: Uptime)
        ensures
            later@ == self@ + rhs@,
    {
        Uptime(self.0 + rhs)
    }
}

impl AddSpecImpl<Duration> for Uptime {
    open spec fn obeys_add_spec() -> bool {
        false
    }

    open spec fn add_req(self, rhs: Duration) -> bool {
        fits_i64(self@ + rhs@)
    }

    closed spec fn add_spec(self, rhs: Duration) -> Uptime {
        Uptime(vstd::std_specs::ops::AddSpec::add_spec(self.0, rhs))
    }
}

impl Sub<Duration> for Uptime {
    type Output = Uptime;

    fn sub(self, rhs: Duration) -> (earlier: Uptime)
        ensures
            earlier@ == self@ - rhs@,
    {
        Uptime(self.0 - rhs)
    }
}

impl SubSpecImpl<Duration> for Uptime {
    open spec fn obeys_sub_spec() -> bool {
        false
    }

    open spec fn sub_req(self, rhs: Duration) -> bool {
        fits_i64(self@ - rhs@)
    }

    closed spec fn sub_spec(self, rhs: Duration) -> Uptime {
        Uptime(vstd::std_specs::ops::SubSpec::sub_spec(self.0, rhs))
    }
}

impl Sub<Uptime> for Uptime {
    type Output = Duration;

    /// The elapsed `Duration` between two points in time: positive when
    /// `self` is later than `rhs`, negative when earlier.
    fn sub(self, rhs: Uptime) -> (elapsed: Duration)
        ensures
            elapsed@ == self@ - rhs@,
    {
        self.0 - rhs.0
    }
}

impl SubSpecImpl<Uptime> for Uptime {
    open spec fn obeys_sub_spec() -> bool {
        false
    }

    open spec fn sub_req(self, rhs: Uptime) -> bool {
        fits_i64(self@ - rhs@)
    }

    closed spec fn sub_spec(self, rhs: Uptime) -> Duration {
        vstd::std_specs::ops::SubSpec::sub_spec(self.0, rhs.0)
    }
}

impl PartialOrd for Uptime {
    fn partial_cmp(&self, other: &Uptime) -> (order: Option<Ordering>) {
        let a = self.0.raw();
        let b = other.0.raw();
        if a < b {
            Some(Ordering::Less)
        } else if a > b {
            Some(Ordering::Greater)
        } else {
            Some(Ordering::Equal)
        }
    }
}

impl PartialOrdSpecImpl for Uptime {
    open spec fn obeys_partial_cmp_spec() -> bool {
        true
    }

    open spec fn partial_cmp_spec(&self, other: &Uptime) -> Option<Ordering> {
        if self@ < other@ {
            Some(Ordering::Less)
        } else if self@ > other@ {
            Some(Ordering::Greater)
        } else {
            Some(Ordering::Equal)
        }
    }
}

/// Subtracting a duration undoes adding it, and the time elapsed from `u`
/// to `u + d` is `d`.
pub proof fn law_uptime_add_then_sub(u: Uptime, d: Duration)
    requires
        fits_i64(u@ + d@),
    ensures
        (u@ + d@) - d@ == u@,
        (u@ + d@) - u@ == d@,
{
}

/// Going back by the time elapsed since an earlier uptime reaches it.
pub proof fn law_elapsed_then_back(later: Uptime, earlier: Uptime)
    requires
        fits_i64(later@ - earlier@),
    ensures
        later@ - (later@ - earlier@) == earlier@,
        fits_i64(later@ - (later@ - earlier@)),
{
    earlier.lemma_view_range();
}

} // verus!
