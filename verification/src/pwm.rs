//! Hardware-agnostic center-aligned PWM API, and the register-value
//! arithmetic an advanced-control timer driver needs for it (prescaler and
//! auto-reload for a frequency, the dead-time encoding, compare values for a
//! duty cycle).
use vstd::prelude::*;
use crate::adc::AdcTriggerSource;
use crate::duration::Duration;
use crate::unit_interval::UnitInterval;

verus! {

/// The TRGO2 wire of `timer`.
pub open spec fn trigger_out_2_wire(timer: PwmTimer) -> AdcTriggerSource {
    match timer {
        PwmTimer::Stm32g4Tim1 => AdcTriggerSource::Stm32g4Tim1TriggerOut2Rising,
        PwmTimer::Stm32g4Tim8 => AdcTriggerSource::Stm32g4Tim8TriggerOut2Rising,
        PwmTimer::Stm32g4Tim20 => AdcTriggerSource::Stm32g4Tim20TriggerOut2Rising,
    }
}

/// Every timer able to drive this API's PWM: it needs an advanced-control
/// timer's break/dead-time generator and internal channels 5/6.
#[derive(Debug, Clone, Copy, PartialEq, Eq, Structural)]
pub enum PwmTimer {
    Stm32g4Tim1,
    Stm32g4Tim8,
    Stm32g4Tim20,
}

impl PwmTimer {
    /// The timer's TRGO2 wire, which a PWM opened with
    /// [`PwmOptions::mid_point_trigger`] pulses once per period; simulated
    /// trigger-out signals are named after it.
    pub fn trigger_out_2(self) -> (wire: AdcTriggerSource)
        ensures
            wire == trigger_out_2_wire(self),
    {
        match self {
            PwmTimer::Stm32g4Tim1 => AdcTriggerSource::Stm32g4Tim1TriggerOut2Rising,
            PwmTimer::Stm32g4Tim8 => AdcTriggerSource::Stm32g4Tim8TriggerOut2Rising,
            PwmTimer::Stm32g4Tim20 => AdcTriggerSource::Stm32g4Tim20TriggerOut2Rising,
        }
    }
}

/// The most channels [`PwmOptions::channels`] can request: channels 1-3
/// (0-indexed 0-2), the only ones with a complementary output pin.
pub const MAX_PWM_CHANNELS: u8 = 3;

/// Configuration for opening a [`PwmTrait`] driver. The PWM is always
/// center-aligned (the counter runs up then down), so every channel's pulse
/// is symmetric about the counter's peak, where
/// [`Self::mid_point_trigger`] can raise a trigger.
#[derive(Debug, Clone, Copy, PartialEq, Eq, Structural)]
pub struct PwmOptions {
    frequency_hz: u32,
    channels: u8,
    dead_time: Duration,
    mid_point_trigger: bool,
}

impl PwmOptions {
    #[verifier::type_invariant]
    spec fn valid(self) -> bool {
        &&& self.frequency_hz > 0
        &&& 1 <= self.channels <= MAX_PWM_CHANNELS
        &&& self.dead_time@ >= 0
    }

    /// The switching frequency.
    pub closed spec fn frequency(self) -> u32 {
        self.frequency_hz
    }

    /// The number of complementary channel pairs.
    pub closed spec fn channel_count(self) -> u8 {
        self.channels
    }

    /// The dead time (raw [`Duration`] units).
    pub closed spec fn dead_time_raw(self) -> int {
        self.dead_time@
    }

    /// Whether a trigger is raised at every period's mid-point.
    pub closed spec fn has_mid_point_trigger(self) -> bool {
        self.mid_point_trigger
    }

    /// Builds a `PwmOptions`. The frequency must be non-zero, the channel
    /// count in `1..=MAX_PWM_CHANNELS` and the dead time non-negative.
    pub fn new(
        frequency_hz: u32,
        channels: u8,
        dead_time: Duration,
        mid_point_trigger: bool,
    ) -> (options: Self)
        requires
            frequency_hz > 0,
            1 <= channels <= MAX_PWM_CHANNELS,
            dead_time@ >= 0,
        ensures
            options.frequency() == frequency_hz,
            options.channel_count() == channels,
            options.dead_time_raw() == dead_time@,
            options.has_mid_point_trigger() == mid_point_trigger,
    {
        PwmOptions { frequency_hz, channels, dead_time, mid_point_trigger }
    }

    /// The switching frequency: how many up/down-counting periods complete
    /// per second.
    pub fn frequency_hz(&self) -> (frequency_hz: u32)
        ensures
            frequency_hz == self.frequency(),
            frequency_hz > 0,
    {
        proof {
            use_type_invariant(self);
        }
        self.frequency_hz
    }

    /// How many of [`MAX_PWM_CHANNELS`] complementary channel pairs to
    /// configure: the exclusive upper bound on
    /// [`PwmTrait::set_duty_cycle`]'s `channel`.
    pub fn channels(&self) -> (channels: u8)
        ensures
            channels == self.channel_count(),
            1 <= channels <= MAX_PWM_CHANNELS,
    {
        proof {
            use_type_invariant(self);
        }
        self.channels
    }

    /// The gap enforced between one side of a complementary pair switching
    /// off and the other switching on; zero disables dead-time insertion.
    pub fn dead_time(&self) -> (dead_time: Duration)
        ensures
            dead_time@ == self.dead_time_raw(),
            dead_time@ >= 0,
    {
        proof {
            use_type_invariant(self);
        }
        self.dead_time
    }

    /// Whether to also raise a trigger at the mid-point of every period (the
    /// counter's peak), besides the update-event trigger at every period's
    /// start.
    pub fn mid_point_trigger(&self) -> (mid_point_trigger: bool)
        ensures
            mid_point_trigger == self.has_mid_point_trigger(),
    {
        self.mid_point_trigger
    }
}

/// The interface every center-aligned PWM driver implements. A driver is
/// described by the options it is open with, if any, and each channel's
/// duty cycle.
pub trait PwmTrait {
    /// The options of the last [`Self::open`], while open.
    spec fn opened_with(&self) -> Option<PwmOptions>;

    /// The duty cycle of the 0-indexed `channel`, as a raw [`UnitInterval`].
    spec fn duty(&self, channel: int) -> int;

    /// Configures the timer per `options`, arms its update-event trigger and
    /// starts generating PWM with every duty cycle at 0.
    fn open(&mut self, options: PwmOptions)
        ensures
            final(self).opened_with() == Some(options),
            forall|channel: int|
                0 <= channel < MAX_PWM_CHANNELS ==> #[trigger] final(self).duty(channel) == 0,
    ;

    /// Stops generating PWM and disables every output.
    fn close(&mut self)
        ensures
            final(self).opened_with() is None,
    ;

    /// Sets the 0-indexed `channel`'s duty cycle: the fraction of each
    /// period its output is active. `channel` must be within the channels
    /// the PWM was opened with.
    fn set_duty_cycle(&mut self, channel: u8, value: UnitInterval)
        ensures
            final(self).opened_with() == old(self).opened_with(),
            (old(self).opened_with() matches Some(options) && channel < options.channel_count())
                ==> final(self).duty(channel as int) == value@,
            forall|other: int| other != channel ==> #[trigger] final(self).duty(other) == old(self).duty(other),
    ;

    /// Changes the dead time while PWM keeps running (for calibrating it by
    /// hand); every other option stays. A dead time must not be negative.
    fn set_dead_time(&mut self, dead_time: Duration)
        requires
            old(self).opened_with() is Some ==> dead_time@ >= 0,
        ensures
            forall|channel: int| #[trigger] final(self).duty(channel) == old(self).duty(channel),
            match old(self).opened_with() {
                Some(options) => final(self).opened_with() matches Some(changed) && changed.frequency()
                    == options.frequency() && changed.channel_count() == options.channel_count()
                    && changed.dead_time_raw() == dead_time@ && changed.has_mid_point_trigger()
                    == options.has_mid_point_trigger(),
                None => final(self).opened_with() is None,
            },
    ;
}

/// The auto-reload value for prescaler `psc`: `timer_clock / (2 *
/// frequency * (psc + 1))`, rounded to nearest (center-aligned counting
/// takes two counter sweeps per period).
pub open spec fn arr_for(timer_clock_hz: int, frequency_hz: int, psc: int) -> int {
    let denom = 2 * frequency_hz * (psc + 1);
    (timer_clock_hz + denom / 2) / denom
}

/// Whether prescaler `psc` gives a representable, non-zero auto-reload.
pub open spec fn psc_fits(timer_clock_hz: int, frequency_hz: int, psc: int) -> bool {
    1 <= arr_for(timer_clock_hz, frequency_hz, psc) <= 0xffff
}

/// Finds the timer's `(psc, arr)` (prescaler and auto-reload) closest to
/// `frequency_hz` for center-aligned counting (f_PWM = f_CK_CNT / (2 *
/// ARR), f_CK_CNT = timer_clock_hz / (psc + 1)): the smallest prescaler,
/// for the finest resolution, whose rounded auto-reload fits 16 bits. Some
/// 16-bit prescaler must reach a representable, non-zero auto-reload.
pub fn compute_psc_arr(timer_clock_hz: u32, frequency_hz: u32) -> (result: (u16, u16))
    requires
        frequency_hz > 0,
        exists|p: int| 0 <= p <= 0xffff && #[trigger] psc_fits(timer_clock_hz as int, frequency_hz as int, p),
    ensures
        psc_fits(timer_clock_hz as int, frequency_hz as int, result.0 as int),
        result.1 == arr_for(timer_clock_hz as int, frequency_hz as int, result.0 as int),
        forall|p: int| 0 <= p < result.0 ==> !#[trigger] psc_fits(timer_clock_hz as int, frequency_hz as int, p),
{
    let mut psc: u32 = 0;
    loop
        invariant
            frequency_hz > 0,
            psc <= 0xffff,
            exists|p: int| 0 <= p <= 0xffff && #[trigger] psc_fits(timer_clock_hz as int, frequency_hz as int, p),
            forall|p: int| 0 <= p < psc ==> !#[trigger] psc_fits(timer_clock_hz as int, frequency_hz as int, p),
        decreases 0xffff - psc,
    {
        assert(2 * frequency_hz * (psc + 1) <= 2 * 0xffff_ffff * 0x1_0000) by (nonlinear_arith)
            requires
                frequency_hz <= 0xffff_ffff,
                psc <= 0xffff,
        ;
        assert(2 * frequency_hz * (psc + 1) >= 2) by (nonlinear_arith)
            requires
                frequency_hz >= 1,
                psc >= 0,
        ;
        let denom = 2 * frequency_hz as u64 * (psc as u64 + 1);
        let arr = (timer_clock_hz as u64 + denom / 2) / denom;
        if 1 <= arr && arr <= 0xffff {
            return (psc as u16, arr as u16);
        }
        proof {
            if psc == 0xffff {
                let p = choose|p: int| 0 <= p <= 0xffff && #[trigger] psc_fits(timer_clock_hz as int, frequency_hz as int, p);
                assert(psc_fits(timer_clock_hz as int, frequency_hz as int, p));
                assert(false);
            }
        }
        psc += 1;
    }
}

/// The dead time, in ticks of the dead-time generator clock, that `BDTR`'s
/// 8-bit `DTG` field encodes (RM0440): `0xxxxxxx` counts single ticks
/// (0..=127), `10xxxxxx` steps of 2 from 128, `110xxxxx` steps of 8 from
/// 256, `111xxxxx` steps of 16 from 512 (up to 1008).
pub open spec fn dtg_ticks(dtg: u8) -> int {
    if dtg < 0x80 {
        dtg as int
    } else if dtg < 0xc0 {
        (64 + (dtg - 0x80)) * 2
    } else if dtg < 0xe0 {
        (32 + (dtg - 0xc0)) * 8
    } else {
        (32 + (dtg - 0xe0)) * 16
    }
}

/// `dead_time` in ticks of a `timer_clock_hz` clock, rounded down: negative
/// dead times count as zero, and the count saturates at `u64::MAX`.
pub open spec fn dead_time_counts(timer_clock_hz: int, dead_time_raw: int) -> int {
    let product = if dead_time_raw < 0 {
        0
    } else {
        dead_time_raw * timer_clock_hz
    };
    if product > u64::MAX {
        u64::MAX as int / 0x1_0000_0000
    } else {
        product / 0x1_0000_0000
    }
}

/// `x` clamped into `lo..=hi`.
pub open spec fn clamp_int(x: int, lo: int, hi: int) -> int {
    if x < lo {
        lo
    } else if x > hi {
        hi
    } else {
        x
    }
}

/// The dead time (in generator ticks) the encoding of `counts` ticks
/// stands for: exact up to 127, and otherwise the step of the finest range
/// able to reach `counts` — `counts` rounded down to a multiple of 2 up to
/// 254, to a multiple of 8 (at least 256) up to 504, and to a multiple of 16
/// clamped to `512..=1008` beyond.
pub open spec fn encoded_dead_time(counts: int) -> int {
    if counts <= 127 {
        counts
    } else if counts <= 254 {
        (counts / 2) * 2
    } else if counts <= 504 {
        clamp_int(counts / 8, 32, 63) * 8
    } else {
        clamp_int(counts / 16, 32, 63) * 16
    }
}

/// Encodes `dead_time` into `BDTR`'s `DTG` field for a dead-time generator
/// clocked at `timer_clock_hz`: the finest range able to reach the
/// requested number of ticks, saturating at the coarsest range's maximum
/// (1008 ticks) when more is asked.
pub fn dead_time_dtg(timer_clock_hz: u32, dead_time: Duration) -> (dtg: u8)
    ensures
        dtg_ticks(dtg) == encoded_dead_time(dead_time_counts(timer_clock_hz as int, dead_time@)),
{
    let raw = dead_time.raw();
    let nonneg: u64 = if raw < 0 {
        0
    } else {
        raw as u64
    };
    assert(nonneg * timer_clock_hz < 0x1_0000_0000_0000_0000_0000_0000_0000_0000) by (nonlinear_arith)
        requires
            nonneg < 0x1_0000_0000_0000_0000,
            timer_clock_hz < 0x1_0000_0000,
    ;
    let product = nonneg as u128 * timer_clock_hz as u128;
    let saturated: u64 = if product > u64::MAX as u128 {
        u64::MAX
    } else {
        product as u64
    };
    let counts = saturated / 0x1_0000_0000;
    if counts <= 127 {
        counts as u8
    } else if counts <= 254 {
        let n8 = (counts / 2 - 64) as u8;
        let dtg = 0b1000_0000u8 | n8;
        proof {
            assert(dtg == 0x80 + n8) by (bit_vector)
                requires
                    n8 < 64,
                    dtg == 0b1000_0000u8 | n8,
            ;
        }
        dtg
    } else if counts <= 504 {
        let q = counts / 8;
        let n = if q < 32 {
            0
        } else if q - 32 > 31 {
            31
        } else {
            q - 32
        };
        let n8 = n as u8;
        let dtg = 0b1100_0000u8 | n8;
        proof {
            assert(dtg == 0xc0 + n8) by (bit_vector)
                requires
                    n8 < 32,
                    dtg == 0b1100_0000u8 | n8,
            ;
        }
        dtg
    } else {
        let q = counts / 16;
        let n = if q < 32 {
            0
        } else if q - 32 > 31 {
            31
        } else {
            q - 32
        };
        let n8 = n as u8;
        let dtg = 0b1110_0000u8 | n8;
        proof {
            assert(dtg == 0xe0 + n8) by (bit_vector)
                requires
                    n8 < 32,
                    dtg == 0b1110_0000u8 | n8,
            ;
        }
        dtg
    }
}

/// The compare value that makes a channel active for the fraction `value`
/// of each period, given auto-reload `arr` (the counter's peak):
/// `floor(value * arr / 2^32)`, so `0` is never active and `arr` is always
/// active.
pub fn compare_value_for_duty_cycle(value: UnitInterval, arr: u16) -> (ccr: u16)
    ensures
        ccr == value@ * arr / 0x1_0000_0000,
        ccr <= arr,
{
    proof {
        value.lemma_view_range();
        assert(value@ * arr <= 0xffff_ffff * arr) by (nonlinear_arith)
            requires
                value@ <= 0xffff_ffff,
                arr >= 0,
        ;
    }
    let product = value.raw() as u64 * arr as u64;
    proof {
        assert(product >> 32 == product / 0x1_0000_0000) by (bit_vector);
        vstd::arithmetic::div_mod::lemma_div_is_ordered(product as int, 0x1_0000_0000 * arr, 0x1_0000_0000);
        vstd::arithmetic::div_mod::lemma_div_multiples_vanish(arr as int, 0x1_0000_0000);
    }
    (product >> 32) as u16
}

} // verus!
