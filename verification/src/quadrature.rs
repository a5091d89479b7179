//! Hardware-agnostic quadrature-encoder API, and the scaling of a raw
//! encoder count into a fraction of one encoder cycle.
use vstd::prelude::*;
use crate::i64_divider::U64Divider;
use crate::unit_interval::UnitInterval;

verus! {

/// A timer able to decode a quadrature encoder in hardware (16-bit timers
/// only: the 32-bit `TIM2` is not supported).
#[derive(Debug, Clone, Copy, PartialEq, Eq, Structural)]
pub enum QuadratureTimer {
    Stm32g4Tim1,
    Stm32g4Tim3,
    Stm32g4Tim4,
    Stm32g4Tim5,
    Stm32g4Tim8,
    Stm32g4Tim20,
}

/// Which of a timer's two capture channels carries the encoder's "A" and
/// "B" phase. Swapping them reverses the perceived counting direction.
#[derive(Debug, Clone, Copy, PartialEq, Eq, Structural)]
pub enum QuadratureInputConfiguration {
    /// Channel 1 carries input A, channel 2 carries input B.
    Ch12AreInputsAB,
    /// Channel 1 carries input B, channel 2 carries input A.
    Ch12AreInputsBA,
}

/// Configuration for a quadrature-encoder input decoded by a hardware timer
/// in encoder-interface mode.
pub struct QuadratureOptions {
    /// Which channel carries which phase; the pins themselves must already
    /// be routed to the timer by the caller.
    pub input_configuration: QuadratureInputConfiguration,
    /// The number of distinct counts in one full encoder cycle: the counter
    /// wraps back to 0 after this many counts.
    pub encoder_counts: u32,
}

/// The interface every quadrature-encoder driver implements. A driver is
/// described by whether it is open, the counts of one encoder cycle it was
/// opened with, and the current count.
pub trait QuadratureTrait {
    /// Whether [`Self::open`] was called since the last [`Self::close`].
    spec fn opened(&self) -> bool;

    /// The counts in one encoder cycle, as last opened.
    spec fn cycle_counts(&self) -> nat;

    /// The current raw count.
    spec fn count(&self) -> nat;

    /// Configures encoder-interface mode per `options` and starts counting
    /// at position 0.
    fn open(&mut self, options: QuadratureOptions)
        ensures
            final(self).opened(),
            final(self).cycle_counts() == options.encoder_counts,
            final(self).count() == 0,
    ;

    /// Stops the counter. [`Self::open`] must be called again before
    /// [`Self::position`].
    fn close(&mut self)
        ensures
            !final(self).opened(),
    ;

    /// The current position as a fraction of one encoder cycle, rounded
    /// down.
    fn position(&self) -> (position: UnitInterval)
        requires
            self.opened(),
        ensures
            position@ == if self.cycle_counts() == 0 {
                0
            } else {
                position_fraction(self.count() as int, self.cycle_counts() as int)
            },
    ;
}

/// `floor(raw * 2^32 / encoder_counts)`: a raw count as a fraction of one
/// encoder cycle.
pub open spec fn position_fraction(raw: int, encoder_counts: int) -> int {
    raw * 0x1_0000_0000 / encoder_counts
}

/// Scales a raw counter value (below `encoder_counts`) into a fraction of
/// one encoder cycle, rounded down, using a divider precomputed for
/// `encoder_counts` (which a single-count encoder does not need).
pub fn position_as_unit_interval(
    raw: u32,
    encoder_counts: u32,
    divider: &Option<U64Divider>,
) -> (position: UnitInterval)
    requires
        raw < encoder_counts,
        encoder_counts == 1 ==> divider is None,
        encoder_counts > 1 ==> (divider matches Some(d) && d.divisor() == encoder_counts),
    ensures
        position@ == position_fraction(raw as int, encoder_counts as int),
{
    match divider {
        Some(d) => {
            let scaled = (raw as u64) * 0x1_0000_0000;
            let q = d.divide(scaled);
            proof {
                vstd::arithmetic::div_mod::lemma_div_is_ordered(
                    raw * 0x1_0000_0000,
                    encoder_counts * 0x1_0000_0000 - 1,
                    encoder_counts as int,
                );
                assert((encoder_counts * 0x1_0000_0000 - 1) / (encoder_counts as int) < 0x1_0000_0000) by {
                    vstd::arithmetic::div_mod::lemma_fundamental_div_mod_converse(
                        encoder_counts * 0x1_0000_0000 - 1,
                        encoder_counts as int,
                        0xffff_ffff,
                        encoder_counts - 1,
                    );
                }
            }
            UnitInterval::new(q as u32)
        },
        None => {
            UnitInterval::new(0)
        },
    }
}

/// The divider [`position_as_unit_interval`] needs for `encoder_counts`
/// (none for a single-count encoder).
pub fn divider_for_counts(encoder_counts: u32) -> (divider: Option<U64Divider>)
    requires
        encoder_counts >= 1,
    ensures
        encoder_counts == 1 ==> divider is None,
        encoder_counts > 1 ==> (divider matches Some(d) && d.divisor() == encoder_counts),
{
    if encoder_counts > 1 {
        Some(U64Divider::new(encoder_counts))
    } else {
        None
    }
}

} // verus!
