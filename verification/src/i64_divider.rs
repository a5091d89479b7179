//! Division of 64-bit values by a fixed 32-bit divisor without a 64-bit
//! division instruction: a 96-bit reciprocal is precomputed once, and every
//! division becomes three 64x32-bit multiplications plus shifts.
use vstd::prelude::*;
use vstd::arithmetic::div_mod::{
    lemma_div_denominator,
    lemma_fundamental_div_mod,
    lemma_fundamental_div_mod_converse,
    lemma_hoist_over_denominator,
    lemma_div_is_ordered,
    lemma_div_pos_is_pos,
};

verus! {

/// `2^32`, the weight of one 32-bit limb.
pub open spec fn limb() -> int {
    0x1_0000_0000
}

/// `2^64`.
pub open spec fn limb2() -> int {
    0x1_0000_0000_0000_0000
}

/// `2^96`, the scale of the reciprocal.
pub open spec fn limb3() -> int {
    0x1_0000_0000_0000_0000_0000_0000
}

/// The rounded-up reciprocal `floor(2^96 / divisor) + 1` that a divider
/// multiplies by.
pub open spec fn reciprocal_of(divisor: int) -> int {
    limb3() / divisor + 1
}

/// The value of three little-endian 32-bit limbs.
pub open spec fn limbs_value(r0: u32, r1: u32, r2: u32) -> int {
    r0 + r1 * limb() + r2 * limb2()
}

/// Division truncated toward zero, as Rust's `/` computes it for a positive
/// divisor (the spec language's own `/` rounds toward negative infinity).
pub open spec fn div_toward_zero(n: int, d: int) -> int {
    if n >= 0 {
        n / d
    } else {
        -((-n) / d)
    }
}

/// `floor((floor(x / c) + y) / d) == floor((x + y * c) / (c * d))`: the step
/// that lets a long multiplication drop fully resolved low bits between
/// columns.
proof fn lemma_fold_column(x: int, y: int, c: int, d: int)
    requires
        0 <= x,
        0 <= y,
        0 < c,
        0 < d,
    ensures
        (x / c + y) / d == (x + y * c) / (c * d),
{
    lemma_hoist_over_denominator(x, y, c as nat);
    assert(0 <= x + y * c) by (nonlinear_arith)
        requires
            0 <= x,
            0 <= y,
            0 < c,
    ;
    lemma_div_denominator(x + y * c, c, d);
}

/// The rounded-up reciprocal turns a multiply-and-shift into an exact
/// division for every 64-bit dividend.
proof fn lemma_reciprocal_divides_exactly(n: int, d: int)
    requires
        0 <= n < limb2(),
        2 <= d < limb(),
    ensures
        (n * reciprocal_of(d)) / limb3() == n / d,
{
    let big = limb3();
    let q = n / d;
    let b = n % d;
    let rq = big / d;
    let s = big % d;
    let r = rq + 1;
    lemma_fundamental_div_mod(n, d);
    lemma_fundamental_div_mod(big, d);
    assert(0 <= b < d && 0 <= s < d) by {
        vstd::arithmetic::div_mod::lemma_mod_pos_bound(n, d);
        vstd::arithmetic::div_mod::lemma_mod_pos_bound(big, d);
    }
    assert(0 <= q) by {
        lemma_div_pos_is_pos(n, d);
    }
    // n * r * d == n * 2^96 + n * (d - s)
    assert(n * r * d == n * big + n * (d - s)) by (nonlinear_arith)
        requires
            big == d * rq + s,
            r == rq + 1,
    ;
    // lower bound: q * 2^96 <= n * r
    assert(q * big <= n * r) by (nonlinear_arith)
        requires
            n * r * d == n * big + n * (d - s),
            n == d * q + b,
            0 <= b,
            s < d,
            0 <= n,
            0 < d,
            0 < big,
    ;
    // upper bound: n * r < (q + 1) * 2^96
    assert(n * (d - s) < big) by (nonlinear_arith)
        requires
            0 <= n < limb2(),
            0 < d - s <= d < limb(),
            big == limb3(),
            limb3() == limb2() * limb(),
    ;
    assert(n * r < (q + 1) * big) by (nonlinear_arith)
        requires
            n * r * d == n * big + n * (d - s),
            n * (d - s) < big,
            n == d * q + b,
            b <= d - 1,
            0 < d,
            0 < big,
    ;
    let m = n * r - q * big;
    lemma_fundamental_div_mod_converse(n * r, big, q, m);
}

/// Computes `n * r` for one 32-bit limb `r`, via two 32x32 -> 64 bit
/// multiplications (splitting `n` into halves the way a 32-bit multiplier
/// has to).
fn mul64x32(n: u64, r: u32) -> (product: u128)
    ensures
        product == n * r,
{
    let n_lo = n as u32 as u64;
    let n_hi = n >> 32;
    let r = r as u64;
    proof {
        assert(n_lo == n % 0x1_0000_0000) by (bit_vector)
            requires
                n_lo == n as u32 as u64,
        ;
        assert(n_hi == n / 0x1_0000_0000) by (bit_vector)
            requires
                n_hi == n >> 32,
        ;
        lemma_fundamental_div_mod(n as int, limb());
        assert(n_lo * r < 0x1_0000_0000_0000_0000) by (nonlinear_arith)
            requires
                n_lo < 0x1_0000_0000,
                r < 0x1_0000_0000,
        ;
        assert(n_hi * r < 0x1_0000_0000_0000_0000) by (nonlinear_arith)
            requires
                n_hi < 0x1_0000_0000,
                r < 0x1_0000_0000,
        ;
    }
    let lo = n_lo * r;
    let hi = n_hi * r;
    let hi_wide = hi as u128;
    proof {
        assert(hi_wide << 32 == hi_wide * 0x1_0000_0000) by (bit_vector)
            requires
                hi_wide < 0x1_0000_0000_0000_0000,
        ;
        assert(lo + hi * limb() == n * r) by (nonlinear_arith)
            requires
                lo == n_lo * r,
                hi == n_hi * r,
                n == limb() * n_hi + n_lo,
        ;
    }
    (lo as u128) + (hi_wide << 32)
}

/// Computes `floor(n * (r0 + r1*2^32 + r2*2^64) / 2^96)` with only
/// 64x32-bit multiplications, folding in one 32-bit column at a time and
/// discarding the fully resolved low bits before adding the next term — the
/// way a long multiplication by hand does.
fn mul_high96x64(n: u64, r0: u32, r1: u32, r2: u32) -> (q: u64)
    ensures
        q == (n * limbs_value(r0, r1, r2)) / limb3(),
{
    let x = mul64x32(n, r0);
    proof {
        assert(x >> 32 == x / 0x1_0000_0000) by (bit_vector);
        assert(n * r0 < limb3() && n * r1 < limb3() && n * r2 < limb3()) by (nonlinear_arith)
            requires
                n < limb2(),
                r0 < limb(),
                r1 < limb(),
                r2 < limb(),
                limb3() == limb2() * limb(),
        ;
        lemma_div_is_ordered(x as int, limb3(), limb());
    }
    let y = mul64x32(n, r1);
    let acc = (x >> 32) + y;
    proof {
        assert(acc >> 32 == acc / 0x1_0000_0000) by (bit_vector);
        lemma_fold_column(x as int, y as int, limb(), limb());
        lemma_div_is_ordered(acc as int, 0x2_0000_0000_0000_0000_0000_0000, limb());
    }
    let z = mul64x32(n, r2);
    let acc2 = (acc >> 32) + z;
    proof {
        assert(acc2 >> 32 == acc2 / 0x1_0000_0000) by (bit_vector);
        lemma_fold_column(x + y * limb(), z as int, limb() * limb(), limb());
        assert(x + y * limb() >= 0) by (nonlinear_arith)
            requires
                x >= 0,
                y >= 0,
        ;
        assert(x + y * limb() + z * (limb() * limb()) == n * limbs_value(r0, r1, r2))
            by (nonlinear_arith)
            requires
                x == n * r0,
                y == n * r1,
                z == n * r2,
                limb2() == limb() * limb(),
        ;
        assert(n * limbs_value(r0, r1, r2) < limb2() * limb3()) by (nonlinear_arith)
            requires
                n < limb2(),
                0 <= limbs_value(r0, r1, r2) < limb3(),
        ;
        assert(limbs_value(r0, r1, r2) < limb3()) by (nonlinear_arith)
            requires
                r0 < limb(),
                r1 < limb(),
                r2 < limb(),
        ;
        lemma_div_is_ordered(n * limbs_value(r0, r1, r2), limb2() * limb3() - 1, limb3());
        assert((limb2() * limb3() - 1) / limb3() < limb2());
    }
    (acc2 >> 32) as u64
}

/// Divides `u64` values by a fixed divisor in `2..2^32` without a 64-bit
/// division instruction: stores the rounded-up 96-bit reciprocal
/// `floor(2^96 / divisor) + 1` as three 32-bit limbs.
#[derive(Clone, Copy)]
pub struct U64Divider {
    r0: u32,
    r1: u32,
    r2: u32,
    divisor: Ghost<int>,
}

impl U64Divider {
    /// The divisor this divider divides by.
    pub closed spec fn divisor(self) -> int {
        self.divisor@
    }

    #[verifier::type_invariant]
    spec fn reciprocal_matches(self) -> bool {
        &&& 2 <= self.divisor@ < limb()
        &&& limbs_value(self.r0, self.r1, self.r2) == reciprocal_of(self.divisor@)
    }

    /// Precomputes the reciprocal needed to divide by `divisor`. The divisor
    /// must be at least 2: `floor(2^96 / 1)` does not fit in 96 bits.
    pub fn new(divisor: u32) -> (divider: Self)
        requires
            divisor > 1,
        ensures
            divider.divisor() == divisor,
    {
        let one_96: u128 = 1u128 << 96;
        assert(one_96 == 0x1_0000_0000_0000_0000_0000_0000u128) by (bit_vector)
            requires
                one_96 == 1u128 << 96,
        ;
        let reciprocal: u128 = one_96 / (divisor as u128) + 1;
        proof {
            vstd::arithmetic::div_mod::lemma_div_is_ordered_by_denominator(limb3(), 2, divisor as int);
            assert(limb3() / 2 == 0x8000_0000_0000_0000_0000_0000);
        }
        let r0 = reciprocal as u32;
        let r1 = (reciprocal >> 32) as u32;
        let r2 = (reciprocal >> 64) as u32;
        proof {
            assert(reciprocal == r0 + r1 * 0x1_0000_0000u128 + r2 * 0x1_0000_0000_0000_0000u128)
                by (bit_vector)
                requires
                    reciprocal < 0x1_0000_0000_0000_0000_0000_0000u128,
                    r0 == reciprocal as u32,
                    r1 == (reciprocal >> 32) as u32,
                    r2 == (reciprocal >> 64) as u32,
            ;
        }
        U64Divider { r0, r1, r2, divisor: Ghost(divisor as int) }
    }

    /// Returns `n / divisor`.
    pub fn divide(&self, n: u64) -> (quotient: u64)
        ensures
            quotient == n as int / self.divisor(),
            2 <= self.divisor() < limb(),
    {
        proof {
            use_type_invariant(self);
            lemma_reciprocal_divides_exactly(n as int, self.divisor@);
        }
        mul_high96x64(n, self.r0, self.r1, self.r2)
    }
}

/// What an [`I64Divider`] can be built from: a raw `u32` divisor (which
/// must be at least 2) or an already-built [`U64Divider`].
pub trait DividerSource {
    /// The divisor the built divider divides by.
    spec fn source_divisor(&self) -> int;

    /// Whether a divider can be built from this value.
    spec fn is_valid_source(&self) -> bool;

    /// Builds (or hands back) the divider.
    fn into_divider(self) -> (divider: U64Divider)
        requires
            self.is_valid_source(),
        ensures
            divider.divisor() == self.source_divisor(),
    ;
}

impl DividerSource for u32 {
    open spec fn source_divisor(&self) -> int {
        *self as int
    }

    open spec fn is_valid_source(&self) -> bool {
        *self > 1
    }

    fn into_divider(self) -> (divider: U64Divider) {
        U64Divider::new(self)
    }
}

impl DividerSource for U64Divider {
    open spec fn source_divisor(&self) -> int {
        self.divisor()
    }

    open spec fn is_valid_source(&self) -> bool {
        true
    }

    fn into_divider(self) -> (divider: U64Divider) {
        self
    }
}

/// Divides `i64` values by a fixed positive divisor without a 64-bit
/// division instruction, truncating toward zero like Rust's `/`: divides the
/// dividend's magnitude with a [`U64Divider`] and re-applies the sign.
#[derive(Clone, Copy)]
pub struct I64Divider {
    inner: U64Divider,
}

impl I64Divider {
    /// The divisor this divider divides by.
    pub closed spec fn divisor(self) -> int {
        self.inner.divisor()
    }

    /// Builds an `I64Divider` from a raw `u32` divisor (at least 2) or from
    /// an already-built [`U64Divider`].
    pub fn new<S: DividerSource>(source: S) -> (divider: Self)
        requires
            source.is_valid_source(),
        ensures
            divider.divisor() == source.source_divisor(),
    {
        I64Divider { inner: source.into_divider() }
    }

    /// Returns `n / divisor`, truncated toward zero (matching Rust's `/`).
    pub fn divide(&self, n: i64) -> (quotient: i64)
        ensures
            quotient == div_toward_zero(n as int, self.divisor()),
            2 <= self.divisor() < limb(),
    {
        // The magnitude of `n`, which for `i64::MIN` (2^63) only fits unsigned.
        let magnitude_in: u64 = if n < 0 {
            (0u64).wrapping_sub(n as u64)
        } else {
            n as u64
        };
        proof {
            if n < 0 {
                assert(magnitude_in == -n) by (bit_vector)
                    requires
                        n < 0,
                        magnitude_in == (0u64).wrapping_sub(n as u64),
                ;
            }
        }
        let magnitude = self.inner.divide(magnitude_in);
        proof {
            vstd::arithmetic::div_mod::lemma_div_is_ordered_by_denominator(
                magnitude_in as int,
                2,
                self.divisor(),
            );
        }
        let magnitude = magnitude as i64;
        if n < 0 {
            -magnitude
        } else {
            magnitude
        }
    }
}

impl From<U64Divider> for I64Divider {
    fn from(inner: U64Divider) -> (divider: Self)
        ensures
            divider.divisor() == inner.divisor(),
    {
        I64Divider { inner }
    }
}

impl vstd::std_specs::convert::FromSpecImpl<U64Divider> for I64Divider {
    open spec fn obeys_from_spec() -> bool {
        true
    }

    closed spec fn from_spec(v: U64Divider) -> Self {
        I64Divider { inner: v }
    }
}

} // verus!
