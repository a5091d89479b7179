//! Signed fixed-point durations: `2^32` raw units make one second.
use vstd::prelude::*;
use core::cmp::Ordering;
use core::ops::{Add, Mul, Sub};
use vstd::std_specs::cmp::PartialOrdSpecImpl;
use vstd::std_specs::ops::{AddSpecImpl, MulSpecImpl, SubSpecImpl};
use crate::i64_divider::{div_toward_zero, I64Divider};

verus! {

/// Raw units in one second.
pub open spec fn second() -> int {
    0x1_0000_0000
}

/// Whether `x` fits an `i64`.
pub open spec fn fits_i64(x: int) -> bool {
    i64::MIN <= x <= i64::MAX
}

/// The duration of `count` units of which `per_second` make up one second,
/// as Rust's truncating `/` computes it.
pub open spec fn raw_of_units(count: int, per_second: int) -> int {
    div_toward_zero(count * second(), per_second)
}

/// `floor(fraction * per_second / 2^32)`: a fraction of a second (in raw
/// units) expressed in units of which `per_second` make up one second,
/// rounded down.
pub open spec fn fraction_in_units(fraction: int, per_second: int) -> int {
    fraction * per_second / second()
}

/// A duration represented as a fixed-point number of seconds: the value is
/// `seconds * 2^32` in a signed 64-bit integer, so the upper 32 bits hold
/// the whole seconds and the lower 32 bits the fraction of a second.
#[derive(Debug, Clone, Copy, PartialEq, Eq, Structural, Ord, Default)]
pub struct Duration(i64);

impl View for Duration {
    type V = int;

    /// The raw value (1 raw unit = 1 / 2^32 second).
    closed spec fn view(&self) -> int {
        self.0 as int
    }
}

/// Splits a raw value into its floored whole seconds and its non-negative
/// fraction of a second.
proof fn lemma_split_seconds(x: i64)
    ensures
        (x >> 32) == x as int / second(),
        (x as u32) == x as int % second(),
        i32::MIN <= x as int / second() <= i32::MAX,
{
    assert(x == (x >> 32) * 0x1_0000_0000 + (x as u32)) by (bit_vector);
    assert(-0x8000_0000 <= (x >> 32) < 0x8000_0000) by (bit_vector);
    vstd::arithmetic::div_mod::lemma_fundamental_div_mod_converse(
        x as int,
        second(),
        (x >> 32) as int,
        (x as u32) as int,
    );
}

impl Duration {
    /// Two durations with the same raw value are the same duration.
    pub proof fn lemma_view_injective(self, other: Self)
        requires
            self@ == other@,
        ensures
            self == other,
    {
    }

    /// Every duration's raw value fits an `i64`.
    pub proof fn lemma_view_range(self)
        ensures
            fits_i64(self@),
    {
    }

    /// Builds a `Duration` from a raw value (1 raw unit = 1 / 2^32 second).
    pub fn new(raw: i64) -> (d: Self)
        ensures
            d@ == raw,
    {
        Duration(raw)
    }

    /// Builds a `Duration` of `seconds` whole seconds.
    pub fn from_seconds(seconds: i32) -> (d: Self)
        ensures
            d@ == seconds * second(),
    {
        assert(seconds * 0x1_0000_0000 <= i64::MAX && seconds * 0x1_0000_0000 >= i64::MIN)
            by (nonlinear_arith)
            requires
                i32::MIN <= seconds <= i32::MAX,
        ;
        Duration((seconds as i64) * 0x1_0000_0000)
    }

    /// Builds a `Duration` of `count` units of which `per_second` make up a
    /// second, rounded toward zero.
    fn from_units(count: i32, per_second: u32) -> (d: Self)
        requires
            per_second > 1,
        ensures
            d@ == raw_of_units(count as int, per_second as int),
    {
        let divider = I64Divider::new(per_second);
        let scaled = Duration::from_seconds(count);
        scaled.divide(&divider)
    }

    /// Builds a `Duration` of `millis` thousandths of a second (rounded
    /// toward zero), e.g. `from_millis(2000)` is two seconds.
    pub fn from_millis(millis: i32) -> (d: Self)
        ensures
            d@ == raw_of_units(millis as int, 1_000),
    {
        Self::from_units(millis, 1_000)
    }

    /// Builds a `Duration` of `micros` millionths of a second (rounded
    /// toward zero).
    pub fn from_micros(micros: i32) -> (d: Self)
        ensures
            d@ == raw_of_units(micros as int, 1_000_000),
    {
        Self::from_units(micros, 1_000_000)
    }

    /// Builds a `Duration` of `nanos` billionths of a second (rounded toward
    /// zero).
    pub fn from_nanos(nanos: i32) -> (d: Self)
        ensures
            d@ == raw_of_units(nanos as int, 1_000_000_000),
    {
        Self::from_units(nanos, 1_000_000_000)
    }

    /// Returns the raw value (1 raw unit = 1 / 2^32 second).
    pub fn raw(self) -> (raw: i64)
        ensures
            raw == self@,
    {
        self.0
    }

    /// Returns the raw value, i.e. the number of `1 / 2^32`-second ticks.
    pub fn ticks(self) -> (ticks: i64)
        ensures
            ticks == self@,
    {
        self.0
    }

    /// Whole seconds, rounded down (the upper 32 bits of the raw value).
    pub fn seconds(self) -> (seconds: i32)
        ensures
            seconds == self@ / second(),
    {
        proof {
            lemma_split_seconds(self.0);
        }
        (self.0 >> 32) as i32
    }

    /// Fractional part of a second, as a fraction of 2^32 (the lower 32 bits
    /// of the raw value).
    pub fn fraction(self) -> (fraction: u32)
        ensures
            fraction == self@ % second(),
    {
        proof {
            lemma_split_seconds(self.0);
        }
        self.0 as u32
    }

    /// The fraction of a second `fraction` in units of which `per_second`
    /// make up a second, rounded down.
    fn fraction_in(fraction: u32, per_second: u32) -> (units: u32)
        requires
            0 < per_second <= 1_000_000_000,
        ensures
            units == fraction_in_units(fraction as int, per_second as int),
            units < per_second,
    {
        assert(fraction * per_second < 0x1_0000_0000 * 0x1_0000_0000) by (nonlinear_arith)
            requires
                fraction < 0x1_0000_0000,
                per_second < 0x1_0000_0000,
        ;
        let product = fraction as u64 * per_second as u64;
        proof {
            assert(product < 0x1_0000_0000 * per_second) by (nonlinear_arith)
                requires
                    product == fraction * per_second,
                    fraction < 0x1_0000_0000,
                    per_second > 0,
            ;
            assert(product >> 32 == product / 0x1_0000_0000) by (bit_vector);
            vstd::arithmetic::div_mod::lemma_div_is_ordered(
                product as int,
                0x1_0000_0000 * per_second - 1,
                second(),
            );
            assert((0x1_0000_0000 * per_second - 1) / second() == per_second - 1) by {
                vstd::arithmetic::div_mod::lemma_fundamental_div_mod_converse(
                    0x1_0000_0000 * per_second - 1,
                    second(),
                    per_second - 1,
                    0xffff_ffff,
                );
            }
        }
        (product >> 32) as u32
    }

    /// Fractional part of a second in milliseconds, rounded down: always in
    /// `0..=999`.
    pub fn fraction_as_millis(self) -> (millis: u32)
        ensures
            millis == fraction_in_units(self@ % second(), 1_000),
            millis < 1_000,
    {
        Self::fraction_in(self.fraction(), 1_000)
    }

    /// Fractional part of a second in microseconds, rounded down: always in
    /// `0..=999_999`.
    pub fn fraction_as_micros(self) -> (micros: u32)
        ensures
            micros == fraction_in_units(self@ % second(), 1_000_000),
            micros < 1_000_000,
    {
        Self::fraction_in(self.fraction(), 1_000_000)
    }

    /// Fractional part of a second in nanoseconds, rounded down: always in
    /// `0..=999_999_999`.
    pub fn fraction_as_nanos(self) -> (nanos: u32)
        ensures
            nanos == fraction_in_units(self@ % second(), 1_000_000_000),
            nanos < 1_000_000_000,
    {
        Self::fraction_in(self.fraction(), 1_000_000_000)
    }

    /// Divides this duration by `divider`'s divisor, truncating toward zero.
    pub fn divide(self, divider: &I64Divider) -> (quotient: Duration)
        ensures
            quotient@ == div_toward_zero(self@, divider.divisor()),
    {
        Duration(divider.divide(self.0))
    }
}

impl Add for Duration {
    type Output = Duration;

    fn add(self, rhs: Duration) -> (sum: Duration)
        ensures
            sum@ == self@ + rhs@,
    {
        Duration(self.0 + rhs.0)
    }
}

impl AddSpecImpl for Duration {
    open spec fn obeys_add_spec() -> bool {
        false
    }

    open spec fn add_req(self, rhs: Duration) -> bool {
        fits_i64(self@ + rhs@)
    }

    closed spec fn add_spec(self, rhs: Duration) -> Duration {
        Duration((self.0 + rhs.0) as i64)
    }
}

impl Sub for Duration {
    type Output = Duration;

    fn sub(self, rhs: Duration) -> (difference: Duration)
        ensures
            difference@ == self@ - rhs@,
    {
        Duration(self.0 - rhs.0)
    }
}

impl SubSpecImpl for Duration {
    open spec fn obeys_sub_spec() -> bool {
        false
    }

    open spec fn sub_req(self, rhs: Duration) -> bool {
        fits_i64(self@ - rhs@)
    }

    closed spec fn sub_spec(self, rhs: Duration) -> Duration {
        Duration((self.0 - rhs.0) as i64)
    }
}

impl Mul<i64> for Duration {
    type Output = Duration;

    fn mul(self, rhs: i64) -> (product: Duration)
        ensures
            product@ == self@ * rhs,
    {
        Duration(self.0 * rhs)
    }
}

impl MulSpecImpl<i64> for Duration {
    open spec fn obeys_mul_spec() -> bool {
        false
    }

    open spec fn mul_req(self, rhs: i64) -> bool {
        fits_i64(self@ * rhs)
    }

    closed spec fn mul_spec(self, rhs: i64) -> Duration {
        Duration((self.0 * rhs) as i64)
    }
}

impl PartialOrd for Duration {
    fn partial_cmp(&self, other: &Duration) -> (order: Option<Ordering>) {
        if self.0 < other.0 {
            Some(Ordering::Less)
        } else if self.0 > other.0 {
            Some(Ordering::Greater)
        } else {
            Some(Ordering::Equal)
        }
    }
}

impl PartialOrdSpecImpl for Duration {
    open spec fn obeys_partial_cmp_spec() -> bool {
        true
    }

    open spec fn partial_cmp_spec(&self, other: &Duration) -> Option<Ordering> {
        if self@ < other@ {
            Some(Ordering::Less)
        } else if self@ > other@ {
            Some(Ordering::Greater)
        } else {
            Some(Ordering::Equal)
        }
    }
}

/// Every duration is its whole seconds (rounded down, always an `i32`)
/// plus a fraction of a second in `0..2^32`.
pub proof fn law_seconds_and_fraction_recompose(d: Duration)
    ensures
        (d@ / second()) * second() + d@ % second() == d@,
        0 <= d@ % second() < second(),
        i32::MIN <= d@ / second() <= i32::MAX,
{
    d.lemma_view_range();
    vstd::arithmetic::div_mod::lemma_fundamental_div_mod(d@, second());
}

/// A duration of whole seconds has exactly those seconds and no fraction.
pub proof fn law_whole_seconds(seconds: i32)
    ensures
        (seconds * second()) / second() == seconds,
        (seconds * second()) % second() == 0,
{
    vstd::arithmetic::div_mod::lemma_fundamental_div_mod_converse(
        seconds * second(),
        second(),
        seconds as int,
        0,
    );
}

/// A non-negative count of milliseconds keeps its whole seconds exactly,
/// and its remainder below a second comes back as milliseconds at most one
/// short: the conversion to raw units and the one back each round down.
pub proof fn law_millis_split_into_seconds_and_remainder(millis: i32)
    requires
        millis >= 0,
    ensures
        raw_of_units(millis as int, 1_000) / second() == millis / 1_000,
        fraction_in_units(raw_of_units(millis as int, 1_000) % second(), 1_000) == millis % 1_000
            || fraction_in_units(raw_of_units(millis as int, 1_000) % second(), 1_000) + 1 == millis
            % 1_000,
{
    let ms = millis as int;
    let s = ms / 1_000;
    let r = ms % 1_000;
    vstd::arithmetic::div_mod::lemma_fundamental_div_mod(ms, 1_000);
    let g = (r * second()) / 1_000;
    vstd::arithmetic::div_mod::lemma_fundamental_div_mod(r * second(), 1_000);
    let x = ms * second();
    assert(x >= 0);
    assert(x == 1_000 * (s * second() + g) + (r * second() - 1_000 * g));
    vstd::arithmetic::div_mod::lemma_fundamental_div_mod_converse(
        x,
        1_000,
        s * second() + g,
        r * second() - 1_000 * g,
    );
    let raw = raw_of_units(ms, 1_000);
    assert(raw == s * second() + g);
    assert(0 <= g < second());
    vstd::arithmetic::div_mod::lemma_fundamental_div_mod_converse(raw, second(), s, g);
    let m = (g * 1_000) / second();
    vstd::arithmetic::div_mod::lemma_fundamental_div_mod(g * 1_000, second());
    assert(m <= r);
    assert(m >= r - 1);
}

/// Subtracting a duration undoes adding it.
pub proof fn law_add_then_sub(a: Duration, b: Duration)
    requires
        fits_i64(a@ + b@),
    ensures
        (a@ + b@) - b@ == a@,
{
}

} // verus!
