//! A simulated quadrature encoder for host-side testing. [`Quadrature`] is
//! the firmware-facing driver; its [`FakeQuadrature`] (reached through
//! [`Quadrature::fake`]/[`Quadrature::fake_mut`]) lets a test turn the
//! encoder.
use vstd::prelude::*;
use crate::i64_divider::U64Divider;
use crate::quadrature::{
    divider_for_counts, position_as_unit_interval, position_fraction, QuadratureOptions,
    QuadratureTimer, QuadratureTrait,
};
use crate::unit_interval::UnitInterval;

verus! {

/// The simulated encoder while open: its cycle length and the divider that
/// scales a count into a fraction of it.
struct OpenEncoder {
    encoder_counts: u32,
    divider: Option<U64Divider>,
}

/// The simulated encoder: whether it is open, and its current count, always
/// below the cycle length it was opened with.
pub struct FakeQuadrature {
    open: Option<OpenEncoder>,
    position: u32,
}

impl FakeQuadrature {
    /// Whether the encoder is open.
    pub closed spec fn opened(&self) -> bool {
        self.open is Some
    }

    /// The counts in one cycle, as last opened (zero while closed).
    pub closed spec fn cycle_counts(&self) -> nat {
        match self.open {
            Some(open) => open.encoder_counts as nat,
            None => 0,
        }
    }

    /// The current count.
    pub closed spec fn count(&self) -> nat {
        self.position as nat
    }

    /// The count is within the cycle, and the divider matches it.
    #[verifier::type_invariant]
    spec fn wf(self) -> bool {
        match self.open {
            Some(open) => {
                &&& (open.encoder_counts == 0 ==> self.position == 0)
                &&& (open.encoder_counts > 0 ==> self.position < open.encoder_counts)
                &&& (open.encoder_counts <= 1 ==> open.divider is None)
                &&& (open.encoder_counts > 1 ==> (open.divider matches Some(d) && d.divisor()
                    == open.encoder_counts))
            },
            None => true,
        }
    }

    /// The current position as a fraction of one cycle, rounded down.
    fn position_now(&self) -> (position: UnitInterval)
        requires
            self.opened(),
        ensures
            position@ == if self.cycle_counts() == 0 {
                0
            } else {
                position_fraction(self.count() as int, self.cycle_counts() as int)
            },
    {
        proof {
            use_type_invariant(self);
        }
        match &self.open {
            Some(open) => {
                if open.encoder_counts == 0 {
                    UnitInterval::new(0)
                } else {
                    position_as_unit_interval(self.position, open.encoder_counts, &open.divider)
                }
            },
            None => UnitInterval::new(0),
        }
    }

    /// Turns the encoder by `delta` counts (positive counts up), wrapping
    /// at the cycle length. The encoder must be open, with a non-zero cycle.
    pub fn move_by(&mut self, delta: i32)
        requires
            old(self).opened(),
            old(self).cycle_counts() > 0,
        ensures
            final(self).opened(),
            final(self).cycle_counts() == old(self).cycle_counts(),
            final(self).count() == (old(self).count() + delta) % (old(self).cycle_counts() as int),
    {
        self.apply_delta(delta as i64);
    }

    /// Moves the count by `delta`, wrapping at the cycle length.
    fn apply_delta(&mut self, delta: i64)
        requires
            old(self).opened(),
            old(self).cycle_counts() > 0,
            -0x1_0000_0000 <= delta <= 0x1_0000_0000,
        ensures
            final(self).opened(),
            final(self).cycle_counts() == old(self).cycle_counts(),
            final(self).count() == (old(self).count() + delta) % (old(self).cycle_counts() as int),
    {
        proof {
            use_type_invariant(&*self);
        }
        let counts: i64 = match &self.open {
            Some(open) => open.encoder_counts as i64,
            None => 1,
        };
        let moved: i64 = self.position as i64 + delta;
        let wrapped = euclid_mod(moved, counts);
        self.position = wrapped as u32;
    }

    /// Jumps the encoder to count `reading`, by whichever direction covers
    /// less distance (counting up on a tie). The encoder must be open and
    /// `reading` within its cycle.
    pub fn set_encoder_reading(&mut self, reading: u32)
        requires
            old(self).opened(),
            reading < old(self).cycle_counts(),
        ensures
            final(self).opened(),
            final(self).cycle_counts() == old(self).cycle_counts(),
            final(self).count() == reading,
    {
        proof {
            use_type_invariant(&*self);
        }
        let counts: i64 = match &self.open {
            Some(open) => open.encoder_counts as i64,
            None => 1,
        };
        let current = self.position as i64;
        let target = reading as i64;
        let up = euclid_mod(target - current, counts);
        let down = euclid_mod(current - target, counts);
        let delta = if up <= down {
            up
        } else {
            -down
        };
        proof {
            let c = counts as int;
            vstd::arithmetic::div_mod::lemma_fundamental_div_mod(target - current, c);
            vstd::arithmetic::div_mod::lemma_fundamental_div_mod(current - target, c);
            let k = if up <= down {
                -((target - current) / c)
            } else {
                (current - target) / c
            };
            assert(current + delta == k * c + target) by (nonlinear_arith)
                requires
                    target - current == c * ((target - current) / c) + up,
                    current - target == c * ((current - target) / c) + down,
                    delta == if up <= down { up as int } else { -down },
                    k == if up <= down { -((target - current) / c) } else { (current - target) / c },
            ;
            vstd::arithmetic::div_mod::lemma_mod_multiples_vanish(k, target as int, c);
            vstd::arithmetic::div_mod::lemma_small_mod(target as nat, c as nat);
        }
        self.apply_delta(delta);
    }

    /// The current position as a fraction of one cycle, rounded down. The
    /// encoder must be open.
    pub fn position(&self) -> (position: UnitInterval)
        requires
            self.opened(),
        ensures
            position@ == if self.cycle_counts() == 0 {
                0
            } else {
                position_fraction(self.count() as int, self.cycle_counts() as int)
            },
    {
        self.position_now()
    }
}

/// `x` modulo `m`, in `0..m`.
fn euclid_mod(x: i64, m: i64) -> (r: i64)
    requires
        m > 0,
        -0x4_0000_0000 <= x <= 0x4_0000_0000,
    ensures
        r == (x as int) % (m as int),
        0 <= r < m,
{
    if x >= 0 {
        x % m
    } else {
        let n = -x;
        let rn = n % m;
        let ghost q = (n as int) / (m as int);
        proof {
            vstd::arithmetic::div_mod::lemma_fundamental_div_mod(n as int, m as int);
        }
        if rn == 0 {
            proof {
                assert(x == (-q) * m + 0) by (nonlinear_arith)
                    requires
                        n == m * q + rn,
                        rn == 0,
                        x == -n,
                ;
                vstd::arithmetic::div_mod::lemma_fundamental_div_mod_converse(
                    x as int,
                    m as int,
                    -q,
                    0,
                );
            }
            0
        } else {
            proof {
                assert(x == (-q - 1) * m + (m - rn)) by (nonlinear_arith)
                    requires
                        n == m * q + rn,
                        x == -n,
                ;
                vstd::arithmetic::div_mod::lemma_fundamental_div_mod_converse(
                    x as int,
                    m as int,
                    -q - 1,
                    m - rn,
                );
            }
            m - rn
        }
    }
}

/// A simulated quadrature-encoder driver.
pub struct Quadrature {
    state: FakeQuadrature,
}

impl Quadrature {
    /// The simulated encoder this driver reads.
    pub closed spec fn state(&self) -> FakeQuadrature {
        self.state
    }

    /// Creates a closed simulated encoder. The timer is accepted and
    /// ignored: there is no real timer to select.
    pub fn new(_timer: QuadratureTimer) -> (quadrature: Self)
        ensures
            !quadrature.state().opened(),
            quadrature.state().count() == 0,
            quadrature.state().cycle_counts() == 0,
    {
        Quadrature { state: FakeQuadrature { open: None, position: 0 } }
    }

    /// The test's view onto the simulated encoder.
    pub fn fake(&self) -> (fake: &FakeQuadrature)
        ensures
            *fake == self.state(),
    {
        &self.state
    }

    /// The test's handle onto the simulated encoder, to turn it.
    pub fn fake_mut(&mut self) -> (fake: &mut FakeQuadrature)
        ensures
            *fake == old(self).state(),
            final(self).state() == *final(fake),
    {
        &mut self.state
    }
}

impl QuadratureTrait for Quadrature {
    open spec fn opened(&self) -> bool {
        self.state().opened()
    }

    open spec fn cycle_counts(&self) -> nat {
        self.state().cycle_counts()
    }

    open spec fn count(&self) -> nat {
        self.state().count()
    }

    /// Opens the encoder and resets its count to zero, as the real driver
    /// resets its counter.
    fn open(&mut self, options: QuadratureOptions) {
        let divider = if options.encoder_counts > 1 {
            divider_for_counts(options.encoder_counts)
        } else {
            None
        };
        self.state = FakeQuadrature {
            open: Some(OpenEncoder { encoder_counts: options.encoder_counts, divider }),
            position: 0,
        };
    }

    fn close(&mut self)
        ensures
            final(self).state().count() == old(self).state().count(),
    {
        self.state = FakeQuadrature { open: None, position: self.state.position };
    }

    fn position(&self) -> (position: UnitInterval) {
        self.state.position_now()
    }
}

} // verus!
