//! The blinky firmware's step: the status LED on, then off, half a period
//! apart, so that it blinks at 1 Hz, timed on the simulated clock.
use vstd::prelude::*;
use crate::clock::{ClockProviderTrait, ClockTrait};
use crate::duration::{raw_of_units, Duration};
use crate::clock::next_tick;
use crate::fake_clock::{
    can_wait_raw, lemma_next_reading_step, lemma_reading_not_before_reference, lemma_window_length,
    lemma_frequency_fits, lemma_next_tick_since, since_reference, tick_raw, ClockProvider,
};
use crate::gpio::{is_output, logical_of, GpioPin, GpioTrait};

verus! {

/// Half a blink period: 500 ms, in raw units.
pub open spec fn half_period_raw() -> int {
    raw_of_units(500, 1_000)
}

/// Half a blink period: the LED is on this long, then off this long.
pub fn half_period() -> (d: Duration)
    ensures
        d@ == half_period_raw(),
{
    Duration::from_millis(500)
}

/// One full blink of `pin`: moves the clock's reference point to the next
/// counter reading, turns the pin on, waits half a period, turns it off
/// and waits half a period again. Returns whether it blinked; it stops,
/// leaving the pin as it stands, where the reference point or a wait would
/// take the time out of range. Only `pin` is driven.
pub fn blink<G: GpioTrait>(gpio: &mut G, provider: &mut ClockProvider, pin: GpioPin) -> (blinked: bool)
    ensures
        forall|port, number| #[trigger]
            final(gpio).pin_mode(port, number) == old(gpio).pin_mode(port, number),
        forall|port, number|
            !(port == pin.view().port && number == pin.view().pin_number)
                ==> #[trigger] final(gpio).physical_high(port, number)
                == old(gpio).physical_high(port, number),
        !old(provider).can_advance() ==> !blinked && *final(provider) == *old(provider),
        !old(provider).can_advance() ==> forall|port, number|
            #[trigger] final(gpio).physical_high(port, number)
                == old(gpio).physical_high(port, number),
        old(provider).can_advance() ==> final(provider).reference_time()
            == old(provider).next_reading_time(),
        blinked && is_output(old(gpio).pin_mode(pin.view().port, pin.view().pin_number))
            ==> !logical_of(
            old(gpio).pin_mode(pin.view().port, pin.view().pin_number),
            final(gpio).physical_high(pin.view().port, pin.view().pin_number),
        ),
        blinked ==> final(provider).simulation().uptime_at(final(provider).simulation().counter())
            >= old(provider).next_reading_time() + half_period_raw(),
        !blinked && old(provider).can_advance() ==> !can_wait_raw(
            final(provider).simulation(),
            half_period_raw(),
        ),
        old(gpio).writes().is_prefix_of(final(gpio).writes()),
        final(gpio).writes().len() <= old(gpio).writes().len() + 2,
        blinked ==> final(gpio).writes().len() == old(gpio).writes().len() + 2,
        blinked ==> final(gpio).writes()[old(gpio).writes().len() as int] == (
            pin.view(),
            true,
            Some(old(provider).next_reading_time()),
        ),
        blinked ==> {
            let off = final(gpio).writes()[old(gpio).writes().len() + 1int];
            &&& off.0 == pin.view()
            &&& !off.1
            &&& off.2 is Some
            &&& off.2->0 >= old(provider).next_reading_time() + half_period_raw()
            &&& off.2->0 <= old(provider).next_reading_time() + half_period_raw() + 2 * tick_raw(
                old(provider).simulation().frequency(),
            )
            &&& final(provider).simulation().uptime_at(final(provider).simulation().counter())
                >= off.2->0 + half_period_raw()
        },
{
    if !provider.can_advance_reference_point() {
        return false;
    }
    provider.advance_reference_point();
    let half = half_period();
    let clock = provider.get_clock();
    if !clock.can_wait_for(half) {
        return false;
    }
    let ghost on = clock.simulation();
    gpio.set_at(pin, true, &*clock);
    clock.wait_for(half);
    if !clock.can_wait_for(half) {
        return false;
    }
    let ghost off = clock.simulation();
    gpio.set_at(pin, false, &*clock);
    clock.wait_for(half);
    proof {
        let f = on.frequency();
        // The pin went on at the reference point itself.
        assert(since_reference(on, on.counter()) == 0);
        lemma_next_reading_step(on, on.counter());
        // It went off within the reference point's window, so the last wait
        // started no earlier.
        if since_reference(off, off.counter()) == 0xffff_ffff {
            lemma_frequency_fits(on);
            lemma_window_length(on.elapsed() as int, f as int);
            lemma_next_tick_since(on.reference_ticks(), on.counter());
            assert(false);
        }
        lemma_next_reading_step(off, off.counter());
        lemma_reading_not_before_reference(off, next_tick(off.counter()));
    }
    true
}

} // verus!
