//! A simulated clock for host-side testing: a free-running 32-bit tick
//! counter that moves on by one tick per read, and the reference point
//! readings are converted against. [`ClockProvider`] owns it;
//! [`ClockProvider::get_clock`] hands firmware a [`ClockFake`] view, and
//! [`ClockProvider::fake`]/[`ClockProvider::fake_mut`] hand a test the
//! [`FakeClockProvider`] to read or jump simulated time directly.
use vstd::prelude::*;
use vstd::arithmetic::div_mod::lemma_div_is_ordered;
use crate::clock::{next_tick, ClockProviderTrait, ClockTrait};
use crate::duration::{fits_i64, second, Duration};
use crate::duration_from_ticks::{ticks_to_raw, wrapped_ticks_since, DurationFromTicks};
use crate::uptime::Uptime;

verus! {

/// The tick count [`FakeClockProvider::advance_by`] moves the counter by for
/// a duration of `raw` units at `frequency` Hz: `floor(raw * frequency /
/// 2^32)`, wrapped into 32 bits.
pub open spec fn ticks_for(raw: int, frequency: int) -> int {
    (raw * frequency / second()) % 0x1_0000_0000
}

/// The simulated counter and the reference point readings are converted
/// against.
#[derive(Clone, Copy)]
pub struct FakeClockProvider {
    ticks_per_second: u32,
    ticks: u32,
    reference: DurationFromTicks,
}

impl FakeClockProvider {
    #[verifier::type_invariant]
    spec fn consistent(self) -> bool {
        &&& self.reference.frequency() == self.ticks_per_second as nat
        &&& self.ticks_per_second > 0
    }

    /// The simulated counter's frequency in Hz.
    pub closed spec fn frequency(&self) -> nat {
        self.ticks_per_second as nat
    }

    /// The value the counter last read.
    pub closed spec fn counter(&self) -> u32 {
        self.ticks
    }

    /// The ticks folded into the reference point so far.
    pub closed spec fn elapsed(&self) -> nat {
        self.reference.elapsed_ticks()
    }

    /// The counter value the reference point was last moved to.
    pub closed spec fn reference_ticks(&self) -> u32 {
        self.reference.last_ticks()
    }

    /// The raw time the counter value `ticks` stands for: the reference
    /// point, plus the ticks the counter moved from the reference's counter
    /// value to `ticks`, modulo 2^32.
    pub open spec fn uptime_at(&self, ticks: u32) -> int {
        ticks_to_raw(
            (self.elapsed() + wrapped_ticks_since(self.reference_ticks(), ticks)) as int,
            self.frequency() as int,
        )
    }

    /// Moves the counter on by one tick and returns its new value.
    fn tick(&mut self) -> (ticks: u32)
        ensures
            ticks == next_tick(old(self).counter()),
            final(self).counter() == ticks,
            final(self).elapsed() == old(self).elapsed(),
            final(self).reference_ticks() == old(self).reference_ticks(),
            final(self).frequency() == old(self).frequency(),
    {
        proof {
            use_type_invariant(&*self);
        }
        let ticks = self.ticks.wrapping_add(1);
        *self = FakeClockProvider {
            ticks_per_second: self.ticks_per_second,
            ticks,
            reference: self.reference,
        };
        ticks
    }

    /// The current simulated time as of the reference point, without moving
    /// the counter.
    pub fn now(&self) -> (time: Duration)
        ensures
            time@ == ticks_to_raw(self.elapsed() as int, self.frequency() as int),
            self.frequency() > 0,
    {
        proof {
            use_type_invariant(self);
        }
        self.reference.now()
    }

    /// Whether [`Self::advance_by`]`(duration)` keeps the time within a
    /// [`Duration`].
    pub fn can_advance_by(&self, duration: Duration) -> (ok: bool)
        ensures
            ok == fits_i64(
                ticks_to_raw(
                    self.elapsed() + ticks_for(duration@, self.frequency() as int),
                    self.frequency() as int,
                ),
            ),
    {
        proof {
            use_type_invariant(self);
        }
        let delta_ticks = ticks_for_duration(duration, self.ticks_per_second);
        let raw = self.reference.raw_after(delta_ticks);
        proof {
            assert((self.elapsed() + delta_ticks) * second() >= 0) by (nonlinear_arith)
                requires
                    self.elapsed() + delta_ticks >= 0,
            ;
            vstd::arithmetic::div_mod::lemma_div_pos_is_pos(
                (self.elapsed() + delta_ticks) * second(),
                self.frequency() as int,
            );
        }
        raw <= 0x7fff_ffff_ffff_ffff
    }

    /// Jumps simulated time forward by `duration`: the counter and the
    /// reference point both move by `floor(duration * frequency / 2^32)`
    /// ticks, wrapped into 32 bits.
    pub fn advance_by(&mut self, duration: Duration)
        requires
            fits_i64(
                ticks_to_raw(
                    old(self).elapsed() + ticks_for(duration@, old(self).frequency() as int),
                    old(self).frequency() as int,
                ),
            ),
        ensures
            final(self).counter() as int == (old(self).counter() + ticks_for(
                duration@,
                old(self).frequency() as int,
            )) % 0x1_0000_0000,
            final(self).elapsed() == old(self).elapsed() + ticks_for(
                duration@,
                old(self).frequency() as int,
            ),
            final(self).reference_ticks() == old(self).reference_ticks(),
            final(self).frequency() == old(self).frequency(),
    {
        proof {
            use_type_invariant(&*self);
        }
        let delta_ticks = ticks_for_duration(duration, self.ticks_per_second);
        let ticks = self.ticks.wrapping_add(delta_ticks);
        let mut reference = self.reference;
        reference.advance_by(delta_ticks);
        *self = FakeClockProvider { ticks_per_second: self.ticks_per_second, ticks, reference };
    }
}

/// `floor(raw * frequency / 2^32)` wrapped into 32 bits, computed in 128
/// bits.
fn ticks_for_duration(duration: Duration, frequency: u32) -> (ticks: u32)
    ensures
        ticks as int == ticks_for(duration@, frequency as int),
{
    let raw = duration.raw();
    proof {
        assert(-0x8000_0000_0000_0000 * 0xffff_ffff <= raw * frequency <= 0x7fff_ffff_ffff_ffff
            * 0xffff_ffff) by (nonlinear_arith)
            requires
                -0x8000_0000_0000_0000 <= raw <= 0x7fff_ffff_ffff_ffff,
                0 <= frequency <= 0xffff_ffff,
        ;
    }
    let product: i128 = raw as i128 * frequency as i128;
    // Rust's `/` and `%` round toward zero; round toward negative infinity
    // instead, as an arithmetic shift by 32 would.
    let quotient: i128 = if product >= 0 {
        product / 0x1_0000_0000
    } else {
        -((-product + 0xffff_ffff) / 0x1_0000_0000)
    };
    proof {
        if product < 0 {
            let n = -product;
            let q = (n + 0xffff_ffff) / 0x1_0000_0000;
            assert(-q == product / 0x1_0000_0000) by {
                vstd::arithmetic::div_mod::lemma_fundamental_div_mod(n + 0xffff_ffff, 0x1_0000_0000);
                vstd::arithmetic::div_mod::lemma_fundamental_div_mod_converse(
                    product as int,
                    0x1_0000_0000,
                    -q,
                    product + 0x1_0000_0000 * q,
                );
            }
        }
    }
    let remainder: i128 = quotient % 0x1_0000_0000;
    let wrapped: i128 = if remainder < 0 {
        remainder + 0x1_0000_0000
    } else {
        remainder
    };
    proof {
        assert(wrapped == (quotient as int) % 0x1_0000_0000int) by {
            if quotient < 0 {
                vstd::arithmetic::div_mod::lemma_fundamental_div_mod(quotient as int, 0x1_0000_0000);
                let m = -quotient;
                vstd::arithmetic::div_mod::lemma_fundamental_div_mod(m as int, 0x1_0000_0000);
                vstd::arithmetic::div_mod::lemma_fundamental_div_mod_converse(
                    quotient as int,
                    0x1_0000_0000,
                    if m % 0x1_0000_0000int == 0 { -(m / 0x1_0000_0000int) } else { -(m / 0x1_0000_0000int) - 1 },
                    wrapped as int,
                );
            }
        }
    }
    wrapped as u32
}

/// A firmware-facing view onto the simulated clock.
pub struct ClockFake {
    sim: FakeClockProvider,
}

impl ClockFake {
    /// The simulated clock this view reads.
    pub closed spec fn simulation(&self) -> FakeClockProvider {
        self.sim
    }

    /// Whether the counter's last reading is within the reference point's
    /// window: not the last one before the counter comes round to the
    /// reference point again.
    pub fn reading_in_window(&self) -> (ok: bool)
        ensures
            ok == (since_reference(self.simulation(), self.simulation().counter()) < 0xffff_ffff),
    {
        self.sim.ticks.wrapping_sub(self.sim.reference.last_counter()) != u32::MAX
    }

    /// Whether [`ClockTrait::wait_for`]`(delay)` can be called now: see
    /// [`ClockTrait::can_wait`].
    pub fn can_wait_for(&self, delay: Duration) -> (ok: bool)
        ensures
            ok == self.can_wait(delay),
    {
        proof {
            use_type_invariant(&self.sim);
        }
        let start = self.sim.ticks.wrapping_add(1);
        let since = start.wrapping_sub(self.sim.reference.last_counter());
        if since == u32::MAX {
            return false;
        }
        let start_raw = self.sim.reference.raw_at(start);
        let top = self.sim.reference.raw_after(0xffff_ffff);
        proof {
            lemma_ticks_to_raw_monotonic(
                (self.sim.elapsed() + since) as int,
                (self.sim.elapsed() + 0xffff_ffff) as int,
                self.sim.frequency() as int,
            );
        }
        if top > 0x7fff_ffff_ffff_ffff {
            return false;
        }
        let deadline = start_raw + delay.raw() as i128;
        if deadline < -0x8000_0000_0000_0000 || deadline > 0x7fff_ffff_ffff_ffff {
            return false;
        }
        top >= deadline
    }
}

/// The ticks the counter has moved on from the reference point.
pub open spec fn since_reference(sim: FakeClockProvider, ticks: u32) -> nat {
    wrapped_ticks_since(sim.reference_ticks(), ticks)
}

/// A counter one tick further is one tick further from the reference point,
/// unless it was at the last tick before coming round to it again.
pub proof fn lemma_next_tick_since(from: u32, ticks: u32)
    requires
        wrapped_ticks_since(from, ticks) < 0xffff_ffff,
    ensures
        wrapped_ticks_since(from, next_tick(ticks)) == wrapped_ticks_since(from, ticks) + 1,
{
}

/// The exact conversion never goes backwards.
proof fn lemma_ticks_to_raw_monotonic(a: int, b: int, frequency: int)
    requires
        0 <= a <= b,
        frequency > 0,
    ensures
        0 <= ticks_to_raw(a, frequency) <= ticks_to_raw(b, frequency),
{
    assert(0 <= a * second() <= b * second()) by (nonlinear_arith)
        requires
            0 <= a <= b,
    ;
    lemma_div_is_ordered(a * second(), b * second(), frequency);
    vstd::arithmetic::div_mod::lemma_div_pos_is_pos(a * second(), frequency);
}

/// Whether a wait of `delay` raw units can start at the simulated clock's
/// next counter reading: that reading must not be the last one before the
/// counter comes round to the reference point again, and the time at that
/// last reading must reach the deadline, all within an [`Uptime`].
pub open spec fn can_wait_raw(sim: FakeClockProvider, delay: int) -> bool {
    let start = next_tick(sim.counter());
    &&& since_reference(sim, start) < 0xffff_ffff
    &&& fits_i64(sim.uptime_at(start) + delay)
    &&& fits_i64(ticks_to_raw((sim.elapsed() + 0xffff_ffff) as int, sim.frequency() as int))
    &&& ticks_to_raw((sim.elapsed() + 0xffff_ffff) as int, sim.frequency() as int) >= sim.uptime_at(start) + delay
    &&& sim.frequency() > 0
}

/// A counter reading never stands for a time before the reference point.
pub proof fn lemma_reading_not_before_reference(sim: FakeClockProvider, ticks: u32)
    requires
        sim.frequency() > 0,
    ensures
        sim.uptime_at(ticks) >= ticks_to_raw(sim.elapsed() as int, sim.frequency() as int),
{
    lemma_ticks_to_raw_monotonic(
        sim.elapsed() as int,
        (sim.elapsed() + wrapped_ticks_since(sim.reference_ticks(), ticks)) as int,
        sim.frequency() as int,
    );
}

/// The most one tick moves a reading by, in raw units: a second's raw
/// units divided by the frequency, rounded up (or one more).
pub open spec fn tick_raw(frequency: nat) -> int {
    second() / (frequency as int) + 1
}

/// Exact conversion moves forward by at most [`tick_raw`] per tick.
proof fn lemma_one_tick_step(x: int, frequency: int)
    requires
        x >= 0,
        frequency > 0,
    ensures
        ticks_to_raw(x + 1, frequency) <= ticks_to_raw(x, frequency) + second() / frequency + 1,
{
    let s = second();
    let a = x * s;
    assert((x + 1) * s == x * s + s) by (nonlinear_arith);
    vstd::arithmetic::div_mod::lemma_fundamental_div_mod(a, frequency);
    vstd::arithmetic::div_mod::lemma_fundamental_div_mod(s, frequency);
    vstd::arithmetic::div_mod::lemma_fundamental_div_mod(a + s, frequency);
    let q = a / frequency + s / frequency;
    assert((a + s) / frequency <= q + 1) by (nonlinear_arith)
        requires
            frequency > 0,
            a == frequency * (a / frequency) + a % frequency,
            s == frequency * (s / frequency) + s % frequency,
            a + s == frequency * ((a + s) / frequency) + (a + s) % frequency,
            0 <= a % frequency < frequency,
            0 <= s % frequency < frequency,
            0 <= (a + s) % frequency,
            q == a / frequency + s / frequency,
    ;
}

/// A simulated counter's frequency fits its 32-bit register.
pub proof fn lemma_frequency_fits(sim: FakeClockProvider)
    ensures
        sim.frequency() < 0x1_0000_0000,
{
}

/// A reference point's window of counter readings lasts at least its
/// 2^32 - 2 ticks past the first reading, each of them worth at least a
/// whole number `second() / frequency` (at least 1) of raw units, for any
/// frequency a 32-bit counter can run at.
pub proof fn lemma_window_length(elapsed: int, frequency: int)
    requires
        elapsed >= 0,
        0 < frequency < 0x1_0000_0000,
    ensures
        second() / frequency >= 1,
        ticks_to_raw(elapsed + 0xffff_ffff, frequency) >= ticks_to_raw(elapsed + 1, frequency)
            + 0xffff_fffe * (second() / frequency),
{
    let s = second();
    let a = (elapsed + 1) * s;
    assert((elapsed + 0xffff_ffff) * s == (elapsed + 1) * s + 0xffff_fffe * s) by (nonlinear_arith);
    lemma_div_is_ordered(frequency, s, frequency);
    vstd::arithmetic::div_mod::lemma_div_by_self(frequency);
    vstd::arithmetic::div_mod::lemma_fundamental_div_mod(a, frequency);
    vstd::arithmetic::div_mod::lemma_fundamental_div_mod(s, frequency);
    vstd::arithmetic::div_mod::lemma_fundamental_div_mod(a + 0xffff_fffe * s, frequency);
    assert(a >= 0) by (nonlinear_arith)
        requires
            elapsed >= 0,
            s > 0,
            a == (elapsed + 1) * s,
    ;
    let qa = a / frequency;
    let qs = s / frequency;
    let b = a + 0xffff_fffe * s;
    assert(b / frequency >= qa + 0xffff_fffe * qs) by (nonlinear_arith)
        requires
            frequency > 0,
            a == frequency * qa + a % frequency,
            s == frequency * qs + s % frequency,
            b == a + 0xffff_fffe * s,
            b == frequency * (b / frequency) + b % frequency,
            0 <= a % frequency < frequency,
            0 <= s % frequency < frequency,
            0 <= b % frequency < frequency,
    ;
}

/// Within the reference point's window, the next counter reading stands for
/// a time no earlier than the current one, and at most one [`tick_raw`]
/// later.
pub proof fn lemma_next_reading_step(sim: FakeClockProvider, ticks: u32)
    requires
        sim.frequency() > 0,
        since_reference(sim, ticks) < 0xffff_ffff,
    ensures
        sim.uptime_at(ticks) <= sim.uptime_at(next_tick(ticks)),
        sim.uptime_at(next_tick(ticks)) <= sim.uptime_at(ticks) + tick_raw(sim.frequency()),
{
    lemma_next_tick_since(sim.reference_ticks(), ticks);
    let x = (sim.elapsed() + since_reference(sim, ticks)) as int;
    lemma_ticks_to_raw_monotonic(x, x + 1, sim.frequency() as int);
    lemma_one_tick_step(x, sim.frequency() as int);
}

impl ClockTrait for ClockFake {
    open spec fn counter(&self) -> u32 {
        self.simulation().counter()
    }

    open spec fn uptime_at(&self, ticks: u32) -> int {
        self.simulation().uptime_at(ticks)
    }

    open spec fn convertible(&self, ticks: u32) -> bool {
        fits_i64(self.uptime_at(ticks))
    }

    /// See [`can_wait_raw`].
    open spec fn can_wait(&self, delay: Duration) -> bool {
        can_wait_raw(self.simulation(), delay@)
    }

    open spec fn frequency(&self) -> nat {
        self.simulation().frequency()
    }

    fn now(&mut self) -> (time: Uptime)
        ensures
            final(self).simulation().elapsed() == old(self).simulation().elapsed(),
            final(self).simulation().reference_ticks() == old(self).simulation().reference_ticks(),
    {
        let ticks = self.ticks_now();
        self.time_at(ticks)
    }

    fn wait_for(&mut self, delay: Duration)
        ensures
            final(self).simulation().elapsed() == old(self).simulation().elapsed(),
            final(self).simulation().reference_ticks() == old(self).simulation().reference_ticks(),
            delay@ >= 0 ==> final(self).uptime_at(final(self).counter()) <= old(self).uptime_at(
                next_tick(old(self).counter()),
            ) + delay@ + tick_raw(old(self).frequency()),
    {
        let ghost elapsed = self.sim.elapsed();
        let ghost frequency = self.sim.frequency();
        let ghost reference = self.sim.reference_ticks();
        let ghost top = ticks_to_raw((elapsed + 0xffff_ffff) as int, frequency as int);
        proof {
            let w = since_reference(self.sim, next_tick(self.sim.counter()));
            lemma_ticks_to_raw_monotonic((elapsed + w) as int, (elapsed + 0xffff_ffff) as int, frequency as int);
        }
        let start = self.now();
        let deadline = start + delay;
        let ghost start_counter = self.sim.counter();
        proof {
            vstd::arithmetic::div_mod::lemma_div_pos_is_pos(second(), frequency as int);
        }
        loop
            invariant_except_break
                since_reference(self.sim, self.sim.counter()) < 0xffff_ffff,
                self.uptime_at(self.counter()) < deadline@ || self.sim.counter() == start_counter,
            invariant
                start@ == self.uptime_at(start_counter),
                deadline@ == start@ + delay@,
                tick_raw(frequency) > 0,
                delay@ >= 0 ==> self.uptime_at(self.counter()) <= start@ + delay@ + tick_raw(frequency),
                self.sim.elapsed() == elapsed,
                self.sim.frequency() == frequency,
                self.sim.reference_ticks() == reference,
                frequency > 0,
                fits_i64(top),
                top == ticks_to_raw((elapsed + 0xffff_ffff) as int, frequency as int),
                top >= deadline@,
            ensures
                self.sim.elapsed() == elapsed,
                self.sim.frequency() == frequency,
                self.sim.reference_ticks() == reference,
                self.uptime_at(self.counter()) >= deadline@,
            decreases 0xffff_ffff - since_reference(self.sim, self.sim.counter()),
        {
            proof {
                let w = since_reference(self.sim, self.sim.counter());
                lemma_next_tick_since(reference, self.sim.counter());
                lemma_ticks_to_raw_monotonic((elapsed + w + 1) as int, (elapsed + 0xffff_ffff) as int, frequency as int);
                lemma_next_reading_step(self.sim, self.sim.counter());
            }
            let time = self.now();
            if time >= deadline {
                break;
            }
            proof {
                let w = since_reference(self.sim, self.sim.counter());
                if w == 0xffff_ffff {
                    assert(time@ == top);
                }
            }
        }
    }

    fn ticks_now(&mut self) -> (ticks: u32)
        ensures
            final(self).simulation().elapsed() == old(self).simulation().elapsed(),
            final(self).simulation().reference_ticks() == old(self).simulation().reference_ticks(),
    {
        self.sim.tick()
    }

    fn time_at(&self, ticks: u32) -> (time: Uptime) {
        proof {
            use_type_invariant(&self.sim);
        }
        Uptime::epoch() + self.sim.reference.time_at(ticks)
    }

    fn ticks_per_second(&self) -> (hz: u32) {
        self.sim.ticks_per_second
    }
}

/// Owns the simulated clock.
pub struct ClockProvider {
    clock: ClockFake,
}

impl ClockProvider {
    /// The simulated clock this provider owns.
    pub closed spec fn simulation(&self) -> FakeClockProvider {
        self.clock.simulation()
    }

    /// Creates a simulated clock running at `mcu_frequency` Hz, with the
    /// counter at zero (so the first [`ClockTrait::ticks_now`] reads 1) and
    /// the reference point at time zero. The first argument is ignored; it
    /// stands where a real provider takes the core peripherals. The
    /// frequency must be non-zero and even (see [`DurationFromTicks::new`]).
    pub fn new<T>(_unused: T, mcu_frequency: u32) -> (provider: Self)
        requires
            mcu_frequency != 0,
            mcu_frequency % 2 == 0,
        ensures
            provider.simulation().frequency() == mcu_frequency,
            provider.simulation().counter() == 0,
            provider.simulation().elapsed() == 0,
            provider.simulation().reference_ticks() == 0,
    {
        ClockProvider {
            clock: ClockFake {
                sim: FakeClockProvider {
                    ticks_per_second: mcu_frequency,
                    ticks: 0,
                    reference: DurationFromTicks::new(mcu_frequency),
                },
            },
        }
    }

    /// A firmware-facing view onto the simulated clock.
    pub fn get_clock(&mut self) -> (clock: &mut ClockFake)
        ensures
            clock.simulation() == old(self).simulation(),
            final(self).simulation() == final(clock).simulation(),
    {
        &mut self.clock
    }

    /// Whether [`ClockProviderTrait::advance_reference_point`] can be
    /// called now: see [`ClockProviderTrait::can_advance`].
    pub fn can_advance_reference_point(&self) -> (ok: bool)
        ensures
            ok == self.can_advance(),
    {
        proof {
            use_type_invariant(&self.clock.sim);
        }
        let next = self.clock.sim.ticks.wrapping_add(1);
        let raw = self.clock.sim.reference.raw_at(next);
        -0x8000_0000_0000_0000 <= raw && raw <= 0x7fff_ffff_ffff_ffff
    }

    /// The test's view onto the simulated clock.
    pub fn fake(&self) -> (fake: &FakeClockProvider)
        ensures
            *fake == self.simulation(),
    {
        &self.clock.sim
    }

    /// The test's handle onto the simulated clock, to jump time forward.
    pub fn fake_mut(&mut self) -> (fake: &mut FakeClockProvider)
        ensures
            *fake == old(self).simulation(),
            final(self).simulation() == *final(fake),
    {
        &mut self.clock.sim
    }
}

impl ClockProviderTrait for ClockProvider {
    type Clock = ClockFake;

    open spec fn can_advance(&self) -> bool {
        fits_i64(self.next_reading_time())
    }

    open spec fn reference_time(&self) -> int {
        ticks_to_raw(self.simulation().elapsed() as int, self.simulation().frequency() as int)
    }

    open spec fn next_reading_time(&self) -> int {
        self.simulation().uptime_at(next_tick(self.simulation().counter()))
    }

    /// Reads the counter (moving it on by one tick) and moves the reference
    /// point to that reading.
    fn advance_reference_point(&mut self)
        ensures
            final(self).simulation().counter() == next_tick(old(self).simulation().counter()),
            final(self).simulation().elapsed() == old(self).simulation().elapsed()
                + wrapped_ticks_since(
                old(self).simulation().reference_ticks(),
                final(self).simulation().counter(),
            ),
            final(self).simulation().reference_ticks() == final(self).simulation().counter(),
            final(self).simulation().frequency() == old(self).simulation().frequency(),
    {
        let ticks = self.clock.sim.tick();
        proof {
            use_type_invariant(&self.clock.sim);
        }
        let mut reference = self.clock.sim.reference;
        reference.advance_to(ticks);
        self.clock.sim = FakeClockProvider {
            ticks_per_second: self.clock.sim.ticks_per_second,
            ticks,
            reference,
        };
    }
}

/// Moving the reference point to counter value `moved_to` leaves the time
/// every later reading stands for unchanged, as long as the counter has not
/// come round to the old reference point again: `elapsed` and `reference`
/// are the reference point before the move, and a reading at `ticks` is
/// converted against it before and against `moved_to` after.
pub proof fn law_moving_the_reference_keeps_readings(
    elapsed: nat,
    reference: u32,
    moved_to: u32,
    ticks: u32,
    frequency: nat,
)
    requires
        wrapped_ticks_since(reference, moved_to) + wrapped_ticks_since(moved_to, ticks)
            < 0x1_0000_0000,
    ensures
        ticks_to_raw(
            (elapsed + wrapped_ticks_since(reference, moved_to) + wrapped_ticks_since(
                moved_to,
                ticks,
            )) as int,
            frequency as int,
        ) == ticks_to_raw(
            (elapsed + wrapped_ticks_since(reference, ticks)) as int,
            frequency as int,
        ),
{
}

/// Reading the counter twice reads two consecutive tick counts.
pub proof fn law_consecutive_reads_tick_once(ticks: u32)
    ensures
        next_tick(ticks) as int == (ticks + 1) % 0x1_0000_0000,
{
    if ticks == u32::MAX {
        vstd::arithmetic::div_mod::lemma_mod_self_0(0x1_0000_0000);
    } else {
        vstd::arithmetic::div_mod::lemma_small_mod((ticks + 1) as nat, 0x1_0000_0000);
    }
}

} // verus!
