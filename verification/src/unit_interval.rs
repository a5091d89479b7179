//! Fixed-point fractions of a cyclic quantity: [`UnitInterval`] covers
//! `[0, 1)` with 32 fraction bits, [`SymmetricUnitInterval`] covers `[-1, 1)`
//! with 31 fraction bits. Both wrap around at their bounds.
use vstd::prelude::*;
use core::ops::{Add, Mul, Sub};
use vstd::std_specs::convert::FromSpecImpl;
use vstd::std_specs::ops::{AddSpecImpl, MulSpecImpl, SubSpecImpl};

verus! {

/// `2^32`, the span of both types' raw encodings.
pub open spec fn span() -> int {
    0x1_0000_0000
}

/// `2^31`, the raw value of one half in [`UnitInterval`] and of one in
/// [`SymmetricUnitInterval`].
pub open spec fn half_span() -> int {
    0x8000_0000
}

/// `x` wrapped into `0..2^32`.
pub open spec fn wrap_unsigned(x: int) -> int {
    x % span()
}

/// `x` wrapped into `-2^31..2^31`.
pub open spec fn wrap_signed(x: int) -> int {
    if x % span() >= half_span() {
        x % span() - span()
    } else {
        x % span()
    }
}

/// `x` clamped into `lo..=hi`.
pub open spec fn clamp(x: int, lo: int, hi: int) -> int {
    if x < lo {
        lo
    } else if x > hi {
        hi
    } else {
        x
    }
}

/// Adding a multiple of `2^32` changes neither wrapping.
proof fn lemma_wrap_multiple(x: int, k: int)
    ensures
        wrap_unsigned(x + k * span()) == wrap_unsigned(x),
        wrap_signed(x + k * span()) == wrap_signed(x),
{
    vstd::arithmetic::div_mod::lemma_mod_multiples_vanish(k, x, span());
    assert(k * span() + x == x + k * span());
    vstd::arithmetic::mul::lemma_mul_is_commutative(k, span());
}

/// A value in `[0, 1)`, stored as `raw / 2^32`. `+`, `-` and `*` wrap around
/// at the interval's bounds (a turn or phase fraction); use
/// [`UnitInterval::saturating_add`]/[`UnitInterval::saturating_sub`] to
/// clamp instead.
#[derive(Debug, Clone, Copy, PartialEq, Eq, Structural, PartialOrd, Ord, Default)]
pub struct UnitInterval(u32);

impl View for UnitInterval {
    type V = int;

    /// The raw value (1 raw unit = 1 / 2^32).
    closed spec fn view(&self) -> int {
        self.0 as int
    }
}

impl UnitInterval {
    /// Two values with the same raw encoding are the same value.
    pub proof fn lemma_view_injective(self, other: Self)
        requires
            self@ == other@,
        ensures
            self == other,
    {
    }

    /// Every raw encoding lies in `0..2^32`.
    pub proof fn lemma_view_range(self)
        ensures
            0 <= self@ < span(),
    {
    }

    /// Builds a `UnitInterval` from a raw value (1 raw unit = 1 / 2^32).
    pub fn new(raw: u32) -> (u: Self)
        ensures
            u@ == raw,
    {
        UnitInterval(raw)
    }

    /// Returns the raw value (1 raw unit = 1 / 2^32).
    pub fn raw(self) -> (raw: u32)
        ensures
            raw == self@,
    {
        self.0
    }

    /// Addition that clamps just below `1` instead of wrapping.
    pub fn saturating_add(self, rhs: Self) -> (sum: Self)
        ensures
            sum@ == clamp(self@ + rhs@, 0, span() - 1),
    {
        UnitInterval(self.0.saturating_add(rhs.0))
    }

    /// Subtraction that clamps at `0` instead of wrapping.
    pub fn saturating_sub(self, rhs: Self) -> (difference: Self)
        ensures
            difference@ == clamp(self@ - rhs@, 0, span() - 1),
    {
        UnitInterval(self.0.saturating_sub(rhs.0))
    }

    /// The value [`Self::expand`] maps this one to.
    pub closed spec fn expanded(self) -> SymmetricUnitInterval {
        SymmetricUnitInterval((self.0 - half_span()) as i32)
    }

    /// The value [`Self::expand`] maps this one to lies half a span below it.
    pub proof fn lemma_expanded(self)
        ensures
            self.expanded()@ == self@ - half_span(),
    {
    }

    /// Maps this `[0, 1)` value onto `[-1, 1)`, doubling its span: `0` maps
    /// to `-1` and values approaching `1` approach `1`. The inverse of
    /// [`SymmetricUnitInterval::shrink`].
    pub fn expand(self) -> (s: SymmetricUnitInterval)
        ensures
            s@ == self@ - half_span(),
            s == self.expanded(),
    {
        let shifted = self.0.wrapping_sub(0x8000_0000);
        let raw = shifted as i32;
        proof {
            let x = self.0;
            assert(raw == x - 0x8000_0000) by (bit_vector)
                requires
                    shifted == x.wrapping_sub(0x8000_0000),
                    raw == shifted as i32,
            ;
        }
        SymmetricUnitInterval(raw)
    }
}

impl Add for UnitInterval {
    type Output = UnitInterval;

    /// Wraps around at the top of the interval, e.g. `0.75 + 0.5` wraps to
    /// `0.25`.
    fn add(self, rhs: UnitInterval) -> (sum: UnitInterval)
        ensures
            sum@ == wrap_unsigned(self@ + rhs@),
    {
        proof {
            if self@ + rhs@ >= span() {
                lemma_wrap_multiple(self@ + rhs@ - span(), 1);
            }
        }
        UnitInterval(self.0.wrapping_add(rhs.0))
    }
}

impl AddSpecImpl for UnitInterval {
    open spec fn obeys_add_spec() -> bool {
        false
    }

    open spec fn add_req(self, rhs: UnitInterval) -> bool {
        true
    }

    closed spec fn add_spec(self, rhs: UnitInterval) -> UnitInterval {
        UnitInterval(wrap_unsigned(self@ + rhs@) as u32)
    }
}

impl Sub for UnitInterval {
    type Output = UnitInterval;

    /// Wraps around at the bottom of the interval, e.g. `0.25 - 0.5` wraps
    /// to `0.75`.
    fn sub(self, rhs: UnitInterval) -> (difference: UnitInterval)
        ensures
            difference@ == wrap_unsigned(self@ - rhs@),
    {
        proof {
            if self@ - rhs@ < 0 {
                lemma_wrap_multiple(self@ - rhs@, 1);
            }
        }
        UnitInterval(self.0.wrapping_sub(rhs.0))
    }
}

impl SubSpecImpl for UnitInterval {
    open spec fn obeys_sub_spec() -> bool {
        false
    }

    open spec fn sub_req(self, rhs: UnitInterval) -> bool {
        true
    }

    closed spec fn sub_spec(self, rhs: UnitInterval) -> UnitInterval {
        UnitInterval(wrap_unsigned(self@ - rhs@) as u32)
    }
}

impl Mul<u32> for UnitInterval {
    type Output = UnitInterval;

    /// Scales the value by an integer factor, wrapping around on overflow
    /// (e.g. to compute a harmonic of a phase).
    fn mul(self, rhs: u32) -> (product: UnitInterval)
        ensures
            product@ == wrap_unsigned(self@ * rhs),
    {
        UnitInterval(self.0.wrapping_mul(rhs))
    }
}

impl MulSpecImpl<u32> for UnitInterval {
    open spec fn obeys_mul_spec() -> bool {
        false
    }

    open spec fn mul_req(self, rhs: u32) -> bool {
        true
    }

    closed spec fn mul_spec(self, rhs: u32) -> UnitInterval {
        UnitInterval(wrap_unsigned(self@ * rhs) as u32)
    }
}

/// A value in `[-1, 1)`, stored as `raw / 2^31`. Like [`UnitInterval`], `+`,
/// `-` and `*` wrap around at the interval's bounds; use
/// [`SymmetricUnitInterval::saturating_add`]/
/// [`SymmetricUnitInterval::saturating_sub`] to clamp instead.
#[derive(Debug, Clone, Copy, PartialEq, Eq, Structural, PartialOrd, Ord, Default)]
pub struct SymmetricUnitInterval(i32);

impl View for SymmetricUnitInterval {
    type V = int;

    /// The raw value (1 raw unit = 1 / 2^31).
    closed spec fn view(&self) -> int {
        self.0 as int
    }
}

impl SymmetricUnitInterval {
    /// Two values with the same raw encoding are the same value.
    pub proof fn lemma_view_injective(self, other: Self)
        requires
            self@ == other@,
        ensures
            self == other,
    {
    }

    /// Every raw encoding lies in `-2^31..2^31`.
    pub proof fn lemma_view_range(self)
        ensures
            -half_span() <= self@ < half_span(),
    {
    }

    /// Builds a `SymmetricUnitInterval` from a raw value (1 raw unit =
    /// 1 / 2^31).
    pub fn new(raw: i32) -> (s: Self)
        ensures
            s@ == raw,
    {
        SymmetricUnitInterval(raw)
    }

    /// Returns the raw value (1 raw unit = 1 / 2^31).
    pub fn raw(self) -> (raw: i32)
        ensures
            raw == self@,
    {
        self.0
    }

    /// Addition that clamps just below `1` (and at `-1`) instead of
    /// wrapping.
    pub fn saturating_add(self, rhs: Self) -> (sum: Self)
        ensures
            sum@ == clamp(self@ + rhs@, -half_span(), half_span() - 1),
    {
        let wide = self.0 as i64 + rhs.0 as i64;
        let clamped = if wide > i32::MAX as i64 {
            i32::MAX
        } else if wide < i32::MIN as i64 {
            i32::MIN
        } else {
            wide as i32
        };
        SymmetricUnitInterval(clamped)
    }

    /// Subtraction that clamps at `-1` (and just below `1`) instead of
    /// wrapping.
    pub fn saturating_sub(self, rhs: Self) -> (difference: Self)
        ensures
            difference@ == clamp(self@ - rhs@, -half_span(), half_span() - 1),
    {
        let wide = self.0 as i64 - rhs.0 as i64;
        let clamped = if wide > i32::MAX as i64 {
            i32::MAX
        } else if wide < i32::MIN as i64 {
            i32::MIN
        } else {
            wide as i32
        };
        SymmetricUnitInterval(clamped)
    }

    /// Maps this `[-1, 1)` value onto `[0, 1)`, halving its span: `-1` maps
    /// to `0` and values approaching `1` approach `1`. The inverse of
    /// [`UnitInterval::expand`].
    pub fn shrink(self) -> (u: UnitInterval)
        ensures
            u@ == self@ + half_span(),
    {
        let bits = self.0 as u32;
        let raw = bits.wrapping_add(0x8000_0000);
        proof {
            let x = self.0;
            assert(raw == x + 0x8000_0000) by (bit_vector)
                requires
                    bits == x as u32,
                    raw == bits.wrapping_add(0x8000_0000),
            ;
        }
        UnitInterval(raw)
    }
}

impl Add for SymmetricUnitInterval {
    type Output = SymmetricUnitInterval;

    /// Wraps around at the top of the interval, e.g. `0.75 + 0.5` wraps to
    /// `-0.75`.
    fn add(self, rhs: SymmetricUnitInterval) -> (sum: SymmetricUnitInterval)
        ensures
            sum@ == wrap_signed(self@ + rhs@),
    {
        let x = self.0;
        let y = rhs.0;
        proof {
            let s = x + y;
            if s >= half_span() {
                lemma_wrap_multiple(s - span(), 1);
                vstd::arithmetic::div_mod::lemma_small_mod((s - span() + span()) as nat, span() as nat);
            } else if s < -half_span() {
                lemma_wrap_multiple(s, 1);
                vstd::arithmetic::div_mod::lemma_small_mod((s + span()) as nat, span() as nat);
            } else if s >= 0 {
                vstd::arithmetic::div_mod::lemma_small_mod(s as nat, span() as nat);
            } else {
                lemma_wrap_multiple(s, 1);
                vstd::arithmetic::div_mod::lemma_small_mod((s + span()) as nat, span() as nat);
            }
        }
        SymmetricUnitInterval(x.wrapping_add(y))
    }
}

impl AddSpecImpl for SymmetricUnitInterval {
    open spec fn obeys_add_spec() -> bool {
        false
    }

    open spec fn add_req(self, rhs: SymmetricUnitInterval) -> bool {
        true
    }

    closed spec fn add_spec(self, rhs: SymmetricUnitInterval) -> SymmetricUnitInterval {
        SymmetricUnitInterval(wrap_signed(self@ + rhs@) as i32)
    }
}

impl Sub for SymmetricUnitInterval {
    type Output = SymmetricUnitInterval;

    /// Wraps around at the bottom of the interval, e.g. `-0.75 - 0.5` wraps
    /// to `0.75`.
    fn sub(self, rhs: SymmetricUnitInterval) -> (difference: SymmetricUnitInterval)
        ensures
            difference@ == wrap_signed(self@ - rhs@),
    {
        let x = self.0;
        let y = rhs.0;
        proof {
            let s = x - y;
            if s >= half_span() {
                lemma_wrap_multiple(s - span(), 1);
                vstd::arithmetic::div_mod::lemma_small_mod((s - span() + span()) as nat, span() as nat);
            } else if s < -half_span() {
                lemma_wrap_multiple(s, 1);
                vstd::arithmetic::div_mod::lemma_small_mod((s + span()) as nat, span() as nat);
            } else if s >= 0 {
                vstd::arithmetic::div_mod::lemma_small_mod(s as nat, span() as nat);
            } else {
                lemma_wrap_multiple(s, 1);
                vstd::arithmetic::div_mod::lemma_small_mod((s + span()) as nat, span() as nat);
            }
        }
        SymmetricUnitInterval(x.wrapping_sub(y))
    }
}

impl SubSpecImpl for SymmetricUnitInterval {
    open spec fn obeys_sub_spec() -> bool {
        false
    }

    open spec fn sub_req(self, rhs: SymmetricUnitInterval) -> bool {
        true
    }

    closed spec fn sub_spec(self, rhs: SymmetricUnitInterval) -> SymmetricUnitInterval {
        SymmetricUnitInterval(wrap_signed(self@ - rhs@) as i32)
    }
}

impl Mul<u32> for SymmetricUnitInterval {
    type Output = SymmetricUnitInterval;

    /// Scales the value by an integer factor, wrapping around on overflow
    /// (e.g. to compute a harmonic of a phase).
    fn mul(self, rhs: u32) -> (product: SymmetricUnitInterval)
        ensures
            product@ == wrap_signed(self@ * rhs),
    {
        let factor = rhs as i32;
        proof {
            if rhs >= 0x8000_0000 {
                assert(factor == rhs - 0x1_0000_0000) by (bit_vector)
                    requires
                        rhs >= 0x8000_0000,
                        factor == rhs as i32,
                ;
                assert(self@ * factor == self@ * rhs + (-self@) * span()) by (nonlinear_arith)
                    requires
                        factor == rhs - 0x1_0000_0000,
                ;
                lemma_wrap_multiple(self@ * rhs, -self@);
            } else {
                assert(factor == rhs) by (bit_vector)
                    requires
                        rhs < 0x8000_0000,
                        factor == rhs as i32,
                ;
            }
        }
        SymmetricUnitInterval(self.0.wrapping_mul(factor))
    }
}

impl MulSpecImpl<u32> for SymmetricUnitInterval {
    open spec fn obeys_mul_spec() -> bool {
        false
    }

    open spec fn mul_req(self, rhs: u32) -> bool {
        true
    }

    closed spec fn mul_spec(self, rhs: u32) -> SymmetricUnitInterval {
        SymmetricUnitInterval(wrap_signed(self@ * rhs) as i32)
    }
}

impl From<UnitInterval> for SymmetricUnitInterval {
    /// Preserves the value: `[0, 1)` is a subset of `[-1, 1)`, modulo the one
    /// bit of precision lost narrowing a 32-bit fraction to a 31-bit one.
    fn from(u: UnitInterval) -> (s: Self)
        ensures
            s@ == u@ / 2,
    {
        let bits = u.0;
        let half = bits >> 1;
        proof {
            assert(half == bits / 2) by (bit_vector)
                requires
                    half == bits >> 1,
            ;
        }
        SymmetricUnitInterval(half as i32)
    }
}

impl FromSpecImpl<UnitInterval> for SymmetricUnitInterval {
    open spec fn obeys_from_spec() -> bool {
        false
    }

    closed spec fn from_spec(v: UnitInterval) -> Self {
        SymmetricUnitInterval((v@ / 2) as i32)
    }
}

impl From<SymmetricUnitInterval> for UnitInterval {
    /// Preserves the value when it is already in `[0, 1)`; negative values
    /// wrap by the interval's cyclic span of `1` (e.g. `-0.25` becomes
    /// `0.75`).
    fn from(s: SymmetricUnitInterval) -> (u: Self)
        ensures
            u@ == wrap_unsigned(2 * s@),
    {
        let x = s.0;
        let bits = x as u32;
        let doubled = bits << 1;
        proof {
            if x >= 0 {
                assert(doubled == (2 * x) % 0x1_0000_0000) by (bit_vector)
                    requires
                        x >= 0,
                        bits == x as u32,
                        doubled == bits << 1,
                ;
            } else {
                assert(doubled == (2 * (x + 0x1_0000_0000)) % 0x1_0000_0000) by (bit_vector)
                    requires
                        x < 0,
                        bits == x as u32,
                        doubled == bits << 1,
                ;
                lemma_wrap_multiple(2 * x, 2);
            }
        }
        UnitInterval(doubled)
    }
}

impl FromSpecImpl<SymmetricUnitInterval> for UnitInterval {
    open spec fn obeys_from_spec() -> bool {
        false
    }

    closed spec fn from_spec(v: SymmetricUnitInterval) -> Self {
        UnitInterval(wrap_unsigned(2 * v@) as u32)
    }
}

/// Expanding a [`UnitInterval`] and shrinking the result gives it back, and
/// the expansion is always representable.
pub proof fn law_expand_then_shrink(u: UnitInterval)
    ensures
        -half_span() <= u@ - half_span() < half_span(),
        (u@ - half_span()) + half_span() == u@,
{
    u.lemma_view_range();
}

/// Shrinking a [`SymmetricUnitInterval`] and expanding the result gives it
/// back, and the shrunk value is always representable.
pub proof fn law_shrink_then_expand(s: SymmetricUnitInterval)
    ensures
        0 <= s@ + half_span() < span(),
        (s@ + half_span()) - half_span() == s@,
{
    s.lemma_view_range();
}

/// Wrapping subtraction undoes wrapping addition: `(a + b) - b == a` on
/// [`UnitInterval`].
pub proof fn law_unit_add_then_sub(a: UnitInterval, b: UnitInterval)
    ensures
        wrap_unsigned(wrap_unsigned(a@ + b@) - b@) == a@,
{
    a.lemma_view_range();
    b.lemma_view_range();
    let sum = a@ + b@;
    vstd::arithmetic::div_mod::lemma_fundamental_div_mod(sum, span());
    let k = sum / span();
    lemma_wrap_multiple(a@, -k);
    assert(wrap_unsigned(sum) - b@ == a@ + (-k) * span());
    vstd::arithmetic::div_mod::lemma_small_mod(a@ as nat, span() as nat);
}

/// Wrapping subtraction undoes wrapping addition: `(a + b) - b == a` on
/// [`SymmetricUnitInterval`].
pub proof fn law_symmetric_add_then_sub(a: SymmetricUnitInterval, b: SymmetricUnitInterval)
    ensures
        wrap_signed(wrap_signed(a@ + b@) - b@) == a@,
{
    a.lemma_view_range();
    b.lemma_view_range();
    let sum = a@ + b@;
    vstd::arithmetic::div_mod::lemma_fundamental_div_mod(sum, span());
    let k = sum / span();
    let w = wrap_signed(sum);
    let j = if sum % span() >= half_span() { k + 1 } else { k };
    assert(w == sum - j * span());
    lemma_wrap_multiple(a@, -j);
    assert(w - b@ == a@ + (-j) * span());
    if a@ >= 0 {
        vstd::arithmetic::div_mod::lemma_small_mod(a@ as nat, span() as nat);
    } else {
        lemma_wrap_multiple(a@, 1);
        vstd::arithmetic::div_mod::lemma_small_mod((a@ + span()) as nat, span() as nat);
    }
}

/// Converting a [`UnitInterval`] to a [`SymmetricUnitInterval`] and back
/// keeps the value, but for its lowest bit, which the narrower fraction
/// cannot hold.
pub proof fn law_unit_to_symmetric_and_back(u: UnitInterval)
    ensures
        wrap_unsigned(2 * (u@ / 2)) == u@ - u@ % 2,
{
    u.lemma_view_range();
    vstd::arithmetic::div_mod::lemma_fundamental_div_mod(u@, 2);
    vstd::arithmetic::div_mod::lemma_small_mod((2 * (u@ / 2)) as nat, span() as nat);
}

/// Converting a non-negative [`SymmetricUnitInterval`] to a [`UnitInterval`]
/// and back gives it back exactly.
pub proof fn law_symmetric_to_unit_and_back(s: SymmetricUnitInterval)
    requires
        s@ >= 0,
    ensures
        wrap_unsigned(2 * s@) / 2 == s@,
{
    s.lemma_view_range();
    vstd::arithmetic::div_mod::lemma_small_mod((2 * s@) as nat, span() as nat);
}

} // verus!
