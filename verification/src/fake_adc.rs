//! A simulated ADC for host-side testing: the open/close/trigger/conversion
//! state machine of one ADC instance, and the sample values a conversion
//! "measures". [`Adc`] is the firmware-facing driver; its [`FakeAdc`]
//! (reached through [`Adc::fake`]/[`Adc::fake_mut`]) lets a test inject
//! sample values, assert a hardware trigger wire, or observe what firmware
//! configured.
use vstd::prelude::*;
use crate::adc::{AdcInstance, AdcOptions, AdcTrait, AdcTriggerSource, MAX_ADC_SEQUENCE_LENGTH};
use crate::callback_registry::PendingQueue;
use crate::dma::{DmaRequest, DmaTrait};
use crate::duration::{fits_i64, raw_of_units, second, Duration};
use crate::unit_interval::UnitInterval;
use crate::uptime::Uptime;

verus! {

/// The bits of a [`UnitInterval`] a simulated sample keeps: the top 16.
pub open spec fn sample_scale() -> int {
    0x1_0000
}

/// The simulated conversion time per channel of a sequence: a microsecond,
/// in raw units. Not cycle-accurate; a longer sequence simply takes longer.
pub open spec fn channel_conversion_time() -> int {
    raw_of_units(1_000, 1_000_000_000)
}

/// The simulated conversion time of a sequence of `channels` channels.
pub open spec fn conversion_time(channels: int) -> int {
    channel_conversion_time() * channels
}

/// The name an instance's simulated conversion completes under; private to
/// the instance, so it flags that instance's conversion alone.
pub open spec fn completion_trigger_name(instance: AdcInstance) -> Seq<char> {
    match instance {
        AdcInstance::Stm32g4Adc1 => "Stm32g4Adc1ConversionComplete"@,
        AdcInstance::Stm32g4Adc2 => "Stm32g4Adc2ConversionComplete"@,
        AdcInstance::Stm32g4Adc3 => "Stm32g4Adc3ConversionComplete"@,
        AdcInstance::Stm32g4Adc4 => "Stm32g4Adc4ConversionComplete"@,
        AdcInstance::Stm32g4Adc5 => "Stm32g4Adc5ConversionComplete"@,
    }
}

/// The instances whose completion interrupt the simulation knows: ADC1 and
/// ADC2, which share the `ADC1_2` vector.
pub open spec fn has_known_vector(instance: AdcInstance) -> bool {
    instance == AdcInstance::Stm32g4Adc1 || instance == AdcInstance::Stm32g4Adc2
}

/// The simulated ADC.
pub struct FakeAdc {
    /// `None` while closed.
    options: Option<AdcOptions>,
    /// A triggered conversion has finished and was not yet retrieved.
    conversion_pending: bool,
    /// Waiting for the hardware trigger wire's next edge (never for a
    /// software trigger).
    armed: bool,
    /// The raw 16-bit sample of each sequence position.
    samples: [u16; 16],
    /// The instance simulated.
    instance: AdcInstance,
}

impl FakeAdc {
    /// The options of the last open, while open.
    pub closed spec fn opened_with(&self) -> Option<AdcOptions> {
        self.options
    }

    /// Whether a triggered conversion has finished and not been retrieved.
    pub closed spec fn finished(&self) -> bool {
        self.conversion_pending
    }

    /// Whether the ADC waits for its trigger wire's next edge.
    pub closed spec fn armed(&self) -> bool {
        self.armed
    }

    /// The instance simulated.
    pub closed spec fn instance(&self) -> AdcInstance {
        self.instance
    }

    /// The sample at sequence position `index`, as a raw [`UnitInterval`]
    /// (zero outside the sequence capacity).
    pub closed spec fn sample(&self, index: int) -> int {
        if 0 <= index < MAX_ADC_SEQUENCE_LENGTH {
            self.samples@[index] * sample_scale()
        } else {
            0
        }
    }

    /// Sets the value later conversions read back at `sequence_index`, as
    /// the analog signal on that channel would; only the top 16 bits of
    /// `value` are kept. Does nothing while closed or beyond the sequence
    /// capacity.
    pub fn set_sample(&mut self, sequence_index: u8, value: UnitInterval)
        ensures
            final(self).opened_with() == old(self).opened_with(),
            final(self).finished() == old(self).finished(),
            final(self).armed() == old(self).armed(),
            final(self).instance() == old(self).instance(),
            forall|i: int| i != sequence_index ==> #[trigger] final(self).sample(i) == old(self).sample(i),
            (old(self).opened_with() is Some && sequence_index < MAX_ADC_SEQUENCE_LENGTH)
                ==> final(self).sample(sequence_index as int) == (value@ / sample_scale())
                * sample_scale(),
            !(old(self).opened_with() is Some && sequence_index < MAX_ADC_SEQUENCE_LENGTH)
                ==> final(self).sample(sequence_index as int) == old(self).sample(
                sequence_index as int,
            ),
    {
        if self.options.is_some() && (sequence_index as usize) < MAX_ADC_SEQUENCE_LENGTH {
            let v = value.raw();
            let raw = v >> 16;
            proof {
                assert(raw == v / 0x1_0000) by (bit_vector)
                    requires
                        raw == v >> 16,
                ;
            }
            self.samples[sequence_index as usize] = raw as u16;
        }
    }

    /// Simulates the hardware trigger wire asserting (e.g. a PWM timer's
    /// trigger output): an armed ADC converts and waits for the result to
    /// be retrieved before it re-arms. Does nothing while closed, for a
    /// software trigger, or while a conversion awaits retrieval.
    pub fn assert_trigger_wire(&mut self)
        ensures
            final(self).opened_with() == old(self).opened_with(),
            final(self).instance() == old(self).instance(),
            forall|i: int| #[trigger] final(self).sample(i) == old(self).sample(i),
            if old(self).opened_with() matches Some(options) && options.trigger()
                != AdcTriggerSource::Software && old(self).armed() {
                final(self).finished() && !final(self).armed()
            } else {
                final(self).finished() == old(self).finished() && final(self).armed() == old(self).armed()
            },
    {
        match self.options {
            Some(options) => {
                if options.trigger_source() != AdcTriggerSource::Software && self.armed {
                    self.armed = false;
                    self.conversion_pending = true;
                }
            },
            None => {},
        }
    }

    /// Whether the ADC was opened more recently than closed.
    pub fn is_open(&self) -> (open: bool)
        ensures
            open == self.opened_with() is Some,
    {
        self.options.is_some()
    }

    /// The options of the last open, while open.
    pub fn options(&self) -> (options: Option<AdcOptions>)
        ensures
            options == self.opened_with(),
    {
        self.options
    }
}

/// A simulated ADC driver.
pub struct Adc {
    state: FakeAdc,
}

impl Adc {
    /// The simulated ADC this driver drives.
    pub closed spec fn state(&self) -> FakeAdc {
        self.state
    }

    /// Creates a closed simulated ADC with every sample at zero. The DMA
    /// request is accepted and ignored: no transfer is simulated.
    pub fn new(instance: AdcInstance, _dma_request: DmaRequest) -> (adc: Self)
        ensures
            adc.state().opened_with() is None,
            !adc.state().finished(),
            !adc.state().armed(),
            adc.state().instance() == instance,
            forall|i: int| #[trigger] adc.state().sample(i) == 0,
    {
        Adc {
            state: FakeAdc {
                options: None,
                conversion_pending: false,
                armed: false,
                samples: [0u16; 16],
                instance,
            },
        }
    }

    /// The test's view onto the simulated ADC.
    pub fn fake(&self) -> (fake: &FakeAdc)
        ensures
            *fake == self.state(),
    {
        &self.state
    }

    /// The test's handle onto the simulated ADC, to inject samples or
    /// assert the trigger wire.
    pub fn fake_mut(&mut self) -> (fake: &mut FakeAdc)
        ensures
            *fake == old(self).state(),
            final(self).state() == *final(fake),
    {
        &mut self.state
    }

    /// Takes ownership of an analog pin's resource handle, so that nothing
    /// else can drive the pin. Which channel the pin is is fixed by the
    /// channel sequence, so the simulated ADC records nothing of it.
    pub fn claim_pin<T>(&mut self, pin: T)
        ensures
            final(self).state() == old(self).state(),
    {
    }
}

impl Adc {
    /// The name this instance's simulated conversion completes under.
    pub fn completion_name(&self) -> (name: &'static str)
        ensures
            name@ == completion_trigger_name(self.state().instance()),
    {
        match self.state.instance {
            AdcInstance::Stm32g4Adc1 => "Stm32g4Adc1ConversionComplete",
            AdcInstance::Stm32g4Adc2 => "Stm32g4Adc2ConversionComplete",
            AdcInstance::Stm32g4Adc3 => "Stm32g4Adc3ConversionComplete",
            AdcInstance::Stm32g4Adc4 => "Stm32g4Adc4ConversionComplete",
            AdcInstance::Stm32g4Adc5 => "Stm32g4Adc5ConversionComplete",
        }
    }

    /// The name of the interrupt vector a finished conversion raises:
    /// `ADC1_2`, shared by ADC1 and ADC2, the only instances the simulation
    /// knows a vector for.
    pub fn interrupt_name(&self) -> (name: &'static str)
        requires
            has_known_vector(self.state().instance()),
        ensures
            name@ == "ADC1_2"@,
    {
        "ADC1_2"
    }

    /// Handles the trigger wire's simulated edge at `now`: an open, armed
    /// ADC starts converting (it ignores further edges until the result is
    /// retrieved) and schedules its completion a [`conversion_time`] of its
    /// sequence later. Otherwise, closed or still converting, the edge is
    /// dropped.
    pub fn on_trigger_out(&mut self, now: Uptime, pending: &mut PendingQueue)
        requires
            old(self).state().opened_with() is Some && old(self).state().armed() ==> fits_i64(
                now@ + conversion_time(old(self).state().opened_with()->0.channel_sequence().len() as int),
            ),
        ensures
            final(self).state().opened_with() == old(self).state().opened_with(),
            final(self).state().finished() == old(self).state().finished(),
            final(self).state().instance() == old(self).state().instance(),
            forall|i: int| #[trigger] final(self).state().sample(i) == old(self).state().sample(i),
            if old(self).state().opened_with() is Some && old(self).state().armed() {
                &&& !final(self).state().armed()
                &&& final(pending).firings() == old(pending).firings().push(
                    (
                        now@ + conversion_time(
                            old(self).state().opened_with()->0.channel_sequence().len() as int,
                        ),
                        vstd::utf8::encode_utf8(completion_trigger_name(old(self).state().instance())),
                    ),
                )
            } else {
                &&& final(self).state().armed() == old(self).state().armed()
                &&& final(pending).firings() == old(pending).firings()
            },
    {
        match self.state.options {
            Some(options) => {
                if self.state.armed {
                    self.state.armed = false;
                    let channels = options.sequence().len();
                    proof {
                        now.lemma_view_range();
                        assert(0 < channel_conversion_time() <= 4_295);
                        assert(0 <= channel_conversion_time() * channels <= 4_295 * 16) by (nonlinear_arith)
                            requires
                                0 < channel_conversion_time() <= 4_295,
                                0 <= channels <= 16,
                        ;
                    }
                    let conversion = Duration::from_nanos(1_000) * (channels as i64);
                    pending.schedule(self.completion_name(), now + conversion);
                }
            },
            None => {},
        }
    }

    /// Handles the simulated completion at `now`: an open ADC flags its
    /// conversion finished, then raises its interrupt vector at the same
    /// instant, so the flag is set by the time the interrupt is served. A
    /// closed ADC ignores it.
    pub fn on_conversion_complete(&mut self, now: Uptime, pending: &mut PendingQueue)
        requires
            has_known_vector(old(self).state().instance()),
        ensures
            final(self).state().opened_with() == old(self).state().opened_with(),
            final(self).state().armed() == old(self).state().armed(),
            final(self).state().instance() == old(self).state().instance(),
            forall|i: int| #[trigger] final(self).state().sample(i) == old(self).state().sample(i),
            if old(self).state().opened_with() is Some {
                &&& final(self).state().finished()
                &&& final(pending).firings() == old(pending).firings().push(
                    (now@, vstd::utf8::encode_utf8("ADC1_2"@)),
                )
            } else {
                &&& final(self).state().finished() == old(self).state().finished()
                &&& final(pending).firings() == old(pending).firings()
            },
    {
        if self.state.options.is_some() {
            self.state.conversion_pending = true;
            pending.schedule(self.interrupt_name(), now);
        }
    }
}

impl AdcTrait for Adc {
    open spec fn opened_with(&self) -> Option<AdcOptions> {
        self.state().opened_with()
    }

    open spec fn finished(&self) -> bool {
        self.state().finished()
    }

    open spec fn sample(&self, index: int) -> int {
        self.state().sample(index)
    }

    /// Arms the ADC at once for a hardware trigger source; keeps the
    /// samples.
    fn open<D: DmaTrait>(&mut self, options: AdcOptions, dma: &D)
        ensures
            final(self).state().armed() == (options.trigger() != AdcTriggerSource::Software),
            forall|i: int| #[trigger] final(self).sample(i) == old(self).sample(i),
            final(self).state().instance() == old(self).state().instance(),
    {
        let armed = options.trigger_source() != AdcTriggerSource::Software;
        self.state = FakeAdc {
            options: Some(options),
            conversion_pending: false,
            armed,
            samples: self.state.samples,
            instance: self.state.instance,
        };
    }

    fn close(&mut self)
        ensures
            !final(self).state().armed(),
            forall|i: int| #[trigger] final(self).sample(i) == old(self).sample(i),
            final(self).state().instance() == old(self).state().instance(),
    {
        self.state = FakeAdc {
            options: None,
            conversion_pending: false,
            armed: false,
            samples: self.state.samples,
            instance: self.state.instance,
        };
    }

    /// A software-triggered conversion finishes at once; anything else
    /// does nothing.
    fn trigger(&mut self)
        ensures
            final(self).state().armed() == old(self).state().armed(),
            forall|i: int| #[trigger] final(self).sample(i) == old(self).sample(i),
            final(self).state().instance() == old(self).state().instance(),
            if old(self).opened_with() matches Some(options) && options.trigger()
                == AdcTriggerSource::Software {
                final(self).finished()
            } else {
                final(self).finished() == old(self).finished()
            },
    {
        match self.state.options {
            Some(options) => {
                if options.trigger_source() == AdcTriggerSource::Software {
                    self.state.conversion_pending = true;
                }
            },
            None => {},
        }
    }

    /// Retrieving a finished conversion re-arms a hardware trigger source
    /// for the wire's next edge.
    fn try_retrieve_result(&mut self) -> (done: bool)
        ensures
            forall|i: int| #[trigger] final(self).sample(i) == old(self).sample(i),
            final(self).state().instance() == old(self).state().instance(),
            final(self).state().armed() == (old(self).state().armed() || (done && (old(self).opened_with() matches Some(options)
                && options.trigger() != AdcTriggerSource::Software))),
    {
        let done = self.state.conversion_pending;
        self.state.conversion_pending = false;
        if done {
            match self.state.options {
                Some(options) => {
                    if options.trigger_source() != AdcTriggerSource::Software {
                        self.state.armed = true;
                    }
                },
                None => {},
            }
        }
        done
    }

    /// Zero outside the sequence opened.
    fn get_sample(&self, sequence_index: u8) -> (value: UnitInterval)
        ensures
            !(self.opened_with() matches Some(options) && sequence_index
                < options.channel_sequence().len()) ==> value@ == 0,
    {
        match self.state.options {
            Some(options) => {
                let sequence = options.sequence();
                if (sequence_index as usize) < sequence.len() {
                    let raw = self.state.samples[sequence_index as usize] as u32;
                    let scaled = raw << 16;
                    proof {
                        assert(scaled == raw * 0x1_0000) by (bit_vector)
                            requires
                                raw < 0x1_0000,
                                scaled == raw << 16,
                        ;
                    }
                    UnitInterval::new(scaled)
                } else {
                    UnitInterval::new(0)
                }
            },
            None => UnitInterval::new(0),
        }
    }
}

} // verus!
