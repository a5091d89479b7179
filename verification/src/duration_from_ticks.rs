//! Exact conversion of a hardware timer's tick count into a [`Duration`].
use vstd::prelude::*;
use vstd::arithmetic::div_mod::{lemma_fundamental_div_mod, lemma_fundamental_div_mod_converse};
use vstd::arithmetic::mul::{lemma_mul_inequality, lemma_mul_is_associative, lemma_mul_is_commutative};
use crate::duration::{fits_i64, second, Duration};
use crate::i64_divider::U64Divider;

verus! {

/// `floor(ticks * 2^32 / frequency)`: the exact duration (in raw units)
/// that `ticks` ticks of a `frequency` Hz timer take.
pub open spec fn ticks_to_raw(ticks: int, frequency: int) -> int {
    ticks * second() / frequency
}

/// Splitting the tick count into whole quanta and a remainder gives the
/// same exact conversion: `floor(t * 2^32 / f) == (t / q) * qd +
/// floor((t % q) * qd / q)`, where `f == q * p` and `qd * p == 2^32`.
proof fn lemma_quantum_split(t: int, q: int, qd: int, p: int, f: int)
    requires
        t >= 0,
        q >= 1,
        qd >= 1,
        p >= 1,
        f == q * p,
        qd * p == second(),
    ensures
        ticks_to_raw(t, f) == (t / q) * qd + (t % q) * qd / q,
        (t % q) * qd / q < qd,
        0 <= (t % q) * qd / q,
{
    let a = t / q;
    let b = t % q;
    lemma_fundamental_div_mod(t, q);
    vstd::arithmetic::div_mod::lemma_mod_pos_bound(t, q);
    let m = b * qd / q;
    let r = b * qd % q;
    lemma_fundamental_div_mod(b * qd, q);
    assert(b * qd >= 0) by (nonlinear_arith)
        requires
            b >= 0,
            qd >= 1,
    ;
    vstd::arithmetic::div_mod::lemma_mod_pos_bound(b * qd, q);
    vstd::arithmetic::div_mod::lemma_div_pos_is_pos(b * qd, q);
    assert(m < qd) by (nonlinear_arith)
        requires
            b * qd == q * m + r,
            b < q,
            0 <= r,
            qd >= 1,
            q >= 1,
    ;
    // t * 2^32 == (a * qd + m) * f + r * p, one product at a time
    let x = t * qd;
    let aq = q * a;
    assert(t * second() == x * p) by (nonlinear_arith)
        requires
            qd * p == second(),
            x == t * qd,
    ;
    assert(x == aq * qd + b * qd) by (nonlinear_arith)
        requires
            t == aq + b,
            x == t * qd,
    ;
    assert(x * p == (aq * qd) * p + (b * qd) * p) by (nonlinear_arith)
        requires
            x == aq * qd + b * qd,
    ;
    assert((aq * qd) * p == (a * qd) * f) by (nonlinear_arith)
        requires
            aq == q * a,
            f == q * p,
    ;
    assert((b * qd) * p == m * f + r * p) by (nonlinear_arith)
        requires
            b * qd == q * m + r,
            f == q * p,
    ;
    assert((a * qd + m) * f == (a * qd) * f + m * f) by (nonlinear_arith);
    assert(t * second() == (a * qd + m) * f + r * p);
    assert(0 <= r * p < f) by (nonlinear_arith)
        requires
            0 <= r < q,
            p >= 1,
            f == q * p,
    ;
    lemma_fundamental_div_mod_converse(t * second(), f, a * qd + m, r * p);
}

/// `2^n`, unfolded one factor of two at a time.
pub open spec fn two_pow(n: nat) -> int
    decreases n,
{
    if n == 0 {
        1
    } else {
        2 * two_pow((n - 1) as nat)
    }
}

/// One step of dividing a factor of two out of `f == q * p` while keeping
/// `raw * p == 2^32` with `raw == 2^j`: with `q` even and `f < 2^32`, `raw`
/// is at least 4, so both halves stay exact.
proof fn lemma_halving_step(q: int, p: int, f: int, raw: int, j: nat)
    requires
        q >= 2,
        p >= 1,
        f == q * p,
        f < 0x1_0000_0000,
        raw * p == 0x1_0000_0000,
        raw == two_pow(j),
    ensures
        j >= 2,
        raw == 2 * two_pow((j - 1) as nat),
        raw / 2 == two_pow((j - 1) as nat),
        (raw / 2) * (2 * p) == 0x1_0000_0000,
{
    lemma_mul_inequality(2, q, p);
    assert(p < 0x8000_0000);
    if raw <= 2 {
        lemma_mul_inequality(raw, 2, p);
        assert(false);
    }
    if j < 2 {
        assert(two_pow(0) == 1);
        assert(two_pow(1) == 2);
    }
    let h = two_pow((j - 1) as nat);
    assert(h * (2 * p) == 0x1_0000_0000) by (nonlinear_arith)
        requires
            raw == 2 * h,
            raw * p == 0x1_0000_0000,
    ;
}

/// Converts a hardware timer's raw tick count into a [`Duration`], given
/// the timer's frequency in Hz, without a 64-bit division per call.
///
/// The tick count is split into a whole number of *quanta* — the largest
/// chunk of ticks (`frequency` with every factor of two divided out) that
/// maps to an exact number of raw duration units — plus a remainder smaller
/// than one quantum. The quantum part accumulates by integer
/// multiplication; only the remainder needs a division, done with a
/// precomputed [`U64Divider`].
#[derive(Clone, Copy)]
pub struct DurationFromTicks {
    /// Ticks per quantum: `frequency` with all factors of two divided out.
    quantum_ticks: u32,
    /// The exact duration of one quantum.
    quantum_duration: Duration,
    /// Divides by `quantum_ticks`; `None` when `quantum_ticks == 1`, where
    /// the remainder is always zero.
    divider: Option<U64Divider>,
    value_at_quantum: Duration,
    ticks_past_quantum: u32,
    /// The hardware tick count last passed to [`Self::advance_to`].
    last_advance_to_ticks: u32,
    /// The timer frequency in Hz.
    frequency: Ghost<nat>,
    /// The power of two divided out of `frequency`.
    scale: Ghost<nat>,
    /// Every tick this converter has been advanced by so far.
    elapsed: Ghost<nat>,
}

impl DurationFromTicks {
    /// The timer frequency, in Hz, this converter was built for.
    pub closed spec fn frequency(self) -> nat {
        self.frequency@
    }

    /// The total number of ticks this converter has been advanced by.
    pub closed spec fn elapsed_ticks(self) -> nat {
        self.elapsed@
    }

    /// The hardware tick count last passed to [`Self::advance_to`] (zero if
    /// never called).
    pub closed spec fn last_ticks(self) -> u32 {
        self.last_advance_to_ticks
    }

    #[verifier::type_invariant]
    spec fn consistent(self) -> bool {
        let q = self.quantum_ticks as int;
        let qd = self.quantum_duration@;
        let p = self.scale@ as int;
        &&& 1 <= q <= 0x7fff_ffff
        &&& 1 <= qd <= 0x8000_0000
        &&& p >= 2
        &&& self.frequency@ == q * p
        &&& qd * p == second()
        &&& (match self.divider {
            Some(d) => q > 1 && d.divisor() == q,
            None => q == 1,
        })
        &&& self.ticks_past_quantum == (self.elapsed@ as int) % q
        &&& self.value_at_quantum@ == ((self.elapsed@ as int) / q) * qd
        &&& fits_i64(ticks_to_raw(self.elapsed@ as int, self.frequency@ as int))
    }

    /// Builds a converter for a timer running at `frequency` Hz, with
    /// [`Self::now`] initially reporting zero. `frequency` must be non-zero
    /// and even: evenness bounds one quantum to at most `2^31 - 1` ticks,
    /// which keeps the remainder arithmetic in [`Self::advance_by`] within
    /// `u32`.
    pub fn new(frequency: u32) -> (converter: Self)
        requires
            frequency != 0,
            frequency % 2 == 0,
        ensures
            converter.frequency() == frequency,
            converter.elapsed_ticks() == 0,
            converter.last_ticks() == 0,
    {
        // Divide every factor of two out of `frequency`: what is left is the
        // quantum, and the same power of two divided out of 2^32 is the
        // quantum's exact duration.
        let mut quantum_ticks = frequency;
        let mut quantum_raw: i64 = 0x1_0000_0000;
        let ghost mut scale: int = 1;
        let ghost mut j: nat = 32;
        proof {
            reveal_with_fuel(two_pow, 33);
        }
        while quantum_ticks % 2 == 0
            invariant
                quantum_ticks >= 1,
                scale >= 1,
                frequency == quantum_ticks * scale,
                quantum_raw * scale == 0x1_0000_0000,
                quantum_raw == two_pow(j),
                frequency < 0x1_0000_0000,
                frequency % 2 == 0,
            decreases quantum_ticks,
        {
            proof {
                lemma_halving_step(quantum_ticks as int, scale, frequency as int, quantum_raw as int, j);
                let h = quantum_ticks / 2;
                assert(quantum_ticks == 2 * h);
                lemma_mul_is_associative(h as int, 2, scale);
                lemma_mul_is_associative(2, h as int, scale);
                lemma_mul_is_commutative(h as int, 2);
            }
            quantum_ticks = quantum_ticks / 2;
            quantum_raw = quantum_raw / 2;
            proof {
                scale = 2 * scale;
                j = (j - 1) as nat;
            }
        }
        proof {
            // at least one factor of two was divided out
            if scale == 1 {
                assert(false);
            }
            assert(scale >= 2);
            lemma_mul_inequality(2, scale, quantum_ticks as int);
            lemma_mul_is_commutative(scale, quantum_ticks as int);
            assert(quantum_ticks <= 0x7fff_ffff);
            if quantum_raw > 0x8000_0000 {
                lemma_mul_inequality(2, scale, quantum_raw as int);
                lemma_mul_is_commutative(scale, quantum_raw as int);
                assert(false);
            }
            if quantum_raw < 1 {
                assert(quantum_raw * scale <= 0) by {
                    vstd::arithmetic::mul::lemma_mul_inequality(quantum_raw as int, 0, scale);
                }
                assert(false);
            }
        }
        let divider = if quantum_ticks > 1 {
            Some(U64Divider::new(quantum_ticks))
        } else {
            None
        };
        proof {
            assert(ticks_to_raw(0, frequency as int) == 0);
            assert(0int % (quantum_ticks as int) == 0);
            assert(0int / (quantum_ticks as int) == 0);
        }
        DurationFromTicks {
            quantum_ticks,
            quantum_duration: Duration::new(quantum_raw),
            divider,
            value_at_quantum: Duration::new(0),
            ticks_past_quantum: 0,
            last_advance_to_ticks: 0,
            frequency: Ghost(frequency as nat),
            scale: Ghost(scale as nat),
            elapsed: Ghost(0),
        }
    }

    /// `floor(ticks_past * quantum_duration / quantum_ticks)`: the exact
    /// duration, in raw units, of a part of one quantum.
    fn fraction_of(&self, ticks_past: u32) -> (fraction: i64)
        requires
            ticks_past < self.quantum_ticks,
        ensures
            fraction == (ticks_past as int) * self.quantum_duration@ / (self.quantum_ticks as int),
            0 <= fraction < self.quantum_duration@,
    {
        proof {
            use_type_invariant(self);
        }
        let ghost qd = self.quantum_duration@;
        let ghost q = self.quantum_ticks as int;
        proof {
            assert(0 <= (ticks_past as int) * qd < q * qd) by (nonlinear_arith)
                requires
                    0 <= ticks_past < q,
                    qd >= 1,
            ;
            vstd::arithmetic::div_mod::lemma_div_pos_is_pos((ticks_past as int) * qd, q);
            vstd::arithmetic::div_mod::lemma_div_by_multiple_is_strongly_ordered(
                (ticks_past as int) * qd,
                q * qd,
                qd,
                q,
            );
            vstd::arithmetic::mul::lemma_mul_is_commutative(q, qd);
            vstd::arithmetic::div_mod::lemma_div_multiples_vanish(qd, q);
        }
        match &self.divider {
            Some(divider) => {
                let qd_raw = self.quantum_duration.ticks();
                assert(ticks_past * qd_raw < 0x8000_0000 * 0x8000_0000) by (nonlinear_arith)
                    requires
                        ticks_past < 0x8000_0000,
                        0 < qd_raw <= 0x8000_0000,
                ;
                let numerator = ticks_past as u64 * qd_raw as u64;
                let fraction = divider.divide(numerator);
                fraction as i64
            },
            None => 0,
        }
    }

    /// The exact time, `floor(elapsed_ticks * 2^32 / frequency)`, as of the
    /// last [`Self::advance_to`] or [`Self::advance_by`] call.
    pub fn now(&self) -> (time: Duration)
        ensures
            time@ == ticks_to_raw(self.elapsed_ticks() as int, self.frequency() as int),
    {
        proof {
            use_type_invariant(self);
            lemma_quantum_split(
                self.elapsed@ as int,
                self.quantum_ticks as int,
                self.quantum_duration@,
                self.scale@ as int,
                self.frequency@ as int,
            );
        }
        let fraction = self.fraction_of(self.ticks_past_quantum);
        self.value_at_quantum + Duration::new(fraction)
    }

    /// Splits advancing by `delta_ticks` into the whole quanta it adds and
    /// the ticks past the last whole quantum afterwards.
    fn split_advance(&self, delta_ticks: u32) -> (split: (i64, u32))
        ensures
            ({
                let q = self.quantum_ticks as int;
                let t_old = self.elapsed_ticks() as int;
                let t_new = t_old + delta_ticks;
                &&& split.0 == t_new / q - t_old / q
                &&& split.1 == t_new % q
                &&& 0 <= split.0 <= (delta_ticks as int) / q + 1
                &&& split.1 < self.quantum_ticks
            }),
    {
        proof {
            use_type_invariant(self);
        }
        let q = self.quantum_ticks;
        let quanta_from_delta = delta_ticks / q;
        let remainder = delta_ticks % q;
        // Both terms are below one quantum, so at most one extra quantum
        // ever needs to be carried over.
        let sum = self.ticks_past_quantum + remainder;
        let ghost t_old = self.elapsed@ as int;
        let ghost t_new = t_old + delta_ticks;
        let ghost qi = q as int;
        proof {
            lemma_fundamental_div_mod(t_old, qi);
            lemma_fundamental_div_mod(delta_ticks as int, qi);
        }
        if sum >= q {
            proof {
                assert(t_new == qi * (t_old / qi + quanta_from_delta + 1) + (sum - q)) by (nonlinear_arith)
                    requires
                        qi == q,
                        t_old == qi * (t_old / qi) + t_old % qi,
                        delta_ticks == qi * quanta_from_delta + remainder,
                        sum == t_old % qi + remainder,
                        t_new == t_old + delta_ticks,
                ;
                lemma_fundamental_div_mod_converse(t_new, qi, t_old / qi + quanta_from_delta + 1, sum - q);
            }
            (quanta_from_delta as i64 + 1, sum - q)
        } else {
            proof {
                assert(t_new == qi * (t_old / qi + quanta_from_delta) + sum) by (nonlinear_arith)
                    requires
                        qi == q,
                        t_old == qi * (t_old / qi) + t_old % qi,
                        delta_ticks == qi * quanta_from_delta + remainder,
                        sum == t_old % qi + remainder,
                        t_new == t_old + delta_ticks,
                ;
                lemma_fundamental_div_mod_converse(t_new, qi, t_old / qi + quanta_from_delta, sum as int);
            }
            (quanta_from_delta as i64, sum)
        }
    }

    /// The exact time, in raw units, this converter would report after
    /// advancing by `delta_ticks`, computed in 128 bits so that it is
    /// defined even where it would not fit a [`Duration`].
    pub fn raw_after(&self, delta_ticks: u32) -> (raw: i128)
        ensures
            raw == ticks_to_raw(self.elapsed_ticks() + delta_ticks, self.frequency() as int),
    {
        proof {
            use_type_invariant(self);
        }
        let (quanta_delta, ticks_past) = self.split_advance(delta_ticks);
        let fraction = self.fraction_of(ticks_past);
        let ghost t_old = self.elapsed@ as int;
        let ghost t_new = t_old + delta_ticks;
        let ghost qi = self.quantum_ticks as int;
        let ghost qd = self.quantum_duration@;
        proof {
            lemma_quantum_split(t_new, qi, qd, self.scale@ as int, self.frequency@ as int);
            assert(0 <= qd * quanta_delta <= 0x8000_0000 * 0x1_0000_0000) by (nonlinear_arith)
                requires
                    0 <= quanta_delta <= 0x1_0000_0000,
                    1 <= qd <= 0x8000_0000,
            ;
            assert(self.value_at_quantum@ + qd * quanta_delta == t_new / qi * qd) by (nonlinear_arith)
                requires
                    self.value_at_quantum@ == (t_old / qi) * qd,
                    quanta_delta == t_new / qi - t_old / qi,
            ;
        }
        let step: i128 = self.quantum_duration.raw() as i128 * quanta_delta as i128;
        self.value_at_quantum.raw() as i128 + step + fraction as i128
    }

    /// The counter value of the last [`Self::advance_to`] (zero before any).
    pub fn last_counter(&self) -> (ticks: u32)
        ensures
            ticks == self.last_ticks(),
    {
        self.last_advance_to_ticks
    }

    /// The exact time, in raw units, at counter value `ticks` as
    /// [`Self::time_at`] computes it, in 128 bits so that it is defined even
    /// where it would not fit a [`Duration`].
    pub fn raw_at(&self, ticks: u32) -> (raw: i128)
        ensures
            raw == ticks_to_raw(
                (self.elapsed_ticks() + wrapped_ticks_since(self.last_ticks(), ticks)) as int,
                self.frequency() as int,
            ),
    {
        let delta = ticks.wrapping_sub(self.last_advance_to_ticks);
        self.raw_after(delta)
    }

    /// Advances the converter by `delta_ticks` hardware ticks, so that
    /// [`Self::now`] reports `delta_ticks` further ahead than before. The
    /// new time must fit a [`Duration`].
    pub fn advance_by(&mut self, delta_ticks: u32)
        requires
            fits_i64(
                ticks_to_raw(old(self).elapsed_ticks() + delta_ticks, old(self).frequency() as int),
            ),
        ensures
            final(self).elapsed_ticks() == old(self).elapsed_ticks() + delta_ticks,
            final(self).frequency() == old(self).frequency(),
            final(self).last_ticks() == old(self).last_ticks(),
    {
        proof {
            use_type_invariant(&*self);
        }
        let (quanta_delta, ticks_past_quantum) = self.split_advance(delta_ticks);
        let ghost t_old = self.elapsed@ as int;
        let ghost t_new = t_old + delta_ticks;
        let ghost qi = self.quantum_ticks as int;
        let ghost qd = self.quantum_duration@;
        proof {
            vstd::arithmetic::div_mod::lemma_div_pos_is_pos(t_new, qi);
            vstd::arithmetic::div_mod::lemma_div_pos_is_pos(t_old, qi);
            lemma_quantum_split(t_new, qi, qd, self.scale@ as int, self.frequency@ as int);
            assert(t_new / qi * qd >= 0) by (nonlinear_arith)
                requires
                    t_new / qi >= 0,
                    qd >= 1,
            ;
            assert(qd * quanta_delta <= t_new / qi * qd && qd * quanta_delta >= 0) by (nonlinear_arith)
                requires
                    t_new / qi == t_old / qi + quanta_delta,
                    t_old / qi >= 0,
                    quanta_delta >= 0,
                    qd >= 1,
            ;
            assert(self.value_at_quantum@ + qd * quanta_delta == t_new / qi * qd) by (nonlinear_arith)
                requires
                    self.value_at_quantum@ == (t_old / qi) * qd,
                    t_new / qi == t_old / qi + quanta_delta,
            ;
        }
        let step = self.quantum_duration * quanta_delta;
        let value_at_quantum = self.value_at_quantum + step;
        *self = DurationFromTicks {
            quantum_ticks: self.quantum_ticks,
            quantum_duration: self.quantum_duration,
            divider: self.divider,
            value_at_quantum,
            ticks_past_quantum,
            last_advance_to_ticks: self.last_advance_to_ticks,
            frequency: self.frequency,
            scale: self.scale,
            elapsed: Ghost(t_new as nat),
        };
    }

    /// Updates the converter so that [`Self::now`] reports the time at
    /// `now_ticks` hardware ticks of a free-running counter that wraps every
    /// 2^32 ticks: advances by the ticks elapsed since the last call,
    /// modulo 2^32.
    pub fn advance_to(&mut self, now_ticks: u32)
        requires
            fits_i64(
                ticks_to_raw(
                    (old(self).elapsed_ticks() + wrapped_ticks_since(old(self).last_ticks(), now_ticks)) as int,
                    old(self).frequency() as int,
                ),
            ),
        ensures
            final(self).elapsed_ticks() == old(self).elapsed_ticks() + wrapped_ticks_since(
                old(self).last_ticks(),
                now_ticks,
            ),
            final(self).frequency() == old(self).frequency(),
            final(self).last_ticks() == now_ticks,
    {
        let delta = now_ticks.wrapping_sub(self.last_advance_to_ticks);
        self.advance_by(delta);
        proof {
            use_type_invariant(&*self);
        }
        self.last_advance_to_ticks = now_ticks;
    }

    /// The time at `ticks` on the free-running counter, i.e. what
    /// [`Self::now`] would report after [`Self::advance_to`]`(ticks)`,
    /// without changing this converter.
    pub fn time_at(&self, ticks: u32) -> (time: Duration)
        requires
            fits_i64(
                ticks_to_raw(
                    (self.elapsed_ticks() + wrapped_ticks_since(self.last_ticks(), ticks)) as int,
                    self.frequency() as int,
                ),
            ),
        ensures
            time@ == ticks_to_raw(
                (self.elapsed_ticks() + wrapped_ticks_since(self.last_ticks(), ticks)) as int,
                self.frequency() as int,
            ),
    {
        let mut probe = *self;
        probe.advance_to(ticks);
        probe.now()
    }
}

/// The ticks a free-running 32-bit counter advanced from `from` to `to`,
/// modulo 2^32.
pub open spec fn wrapped_ticks_since(from: u32, to: u32) -> nat {
    if to >= from {
        (to - from) as nat
    } else {
        (to - from + 0x1_0000_0000) as nat
    }
}

/// From a fresh converter (reference at counter value zero), advancing to
/// counter value `ticks` advances by exactly `ticks`, as
/// [`DurationFromTicks::advance_by`] would.
pub proof fn law_first_advance_to_is_advance_by(ticks: u32)
    ensures
        wrapped_ticks_since(0, ticks) == ticks,
{
}

/// [`DurationFromTicks::advance_to`] follows a counter that wraps every
/// 2^32 ticks: the ticks from `from` to `to` are their difference modulo
/// 2^32, always less than 2^32.
pub proof fn law_advance_to_follows_wraparound(from: u32, to: u32)
    ensures
        wrapped_ticks_since(from, to) == (to - from) % 0x1_0000_0000,
        wrapped_ticks_since(from, to) < 0x1_0000_0000,
{
    if to >= from {
        vstd::arithmetic::div_mod::lemma_small_mod((to - from) as nat, 0x1_0000_0000);
    } else {
        vstd::arithmetic::div_mod::lemma_fundamental_div_mod_converse(
            to - from,
            0x1_0000_0000,
            -1,
            to - from + 0x1_0000_0000,
        );
    }
}


/// The total of `deltas`.
pub open spec fn total_ticks(deltas: Seq<nat>) -> nat
    decreases deltas.len(),
{
    if deltas.len() == 0 {
        0
    } else {
        total_ticks(deltas.drop_last()) + deltas.last()
    }
}

/// Readings do not drift: a converter that starts at zero and is advanced
/// by each of `deltas` in turn ([`DurationFromTicks::advance_by`] by the
/// delta, [`DurationFromTicks::advance_to`] by the ticks since its last
/// counter value), its elapsed ticks being `elapsed[i]` after the first `i`
/// advances, reads the exact conversion of their total however it was
/// split.
pub proof fn law_readings_do_not_drift(elapsed: Seq<nat>, deltas: Seq<nat>, frequency: nat)
    requires
        elapsed.len() == deltas.len() + 1,
        elapsed[0] == 0,
        forall|i: int| 0 <= i < deltas.len() ==> #[trigger] elapsed[i + 1] == elapsed[i] + deltas[i],
    ensures
        elapsed.last() == total_ticks(deltas),
        ticks_to_raw(elapsed.last() as int, frequency as int) == ticks_to_raw(
            total_ticks(deltas) as int,
            frequency as int,
        ),
    decreases deltas.len(),
{
    if deltas.len() > 0 {
        let shorter = elapsed.drop_last();
        assert forall|i: int| 0 <= i < deltas.drop_last().len() implies #[trigger] shorter[i + 1]
            == shorter[i] + deltas.drop_last()[i] by {
            assert(elapsed[i + 1] == elapsed[i] + deltas[i]);
        }
        law_readings_do_not_drift(shorter, deltas.drop_last(), frequency);
        assert(elapsed[deltas.len() as int] == elapsed[deltas.len() - 1] + deltas[deltas.len() - 1]);
    }
}

} // verus!
