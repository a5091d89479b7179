//! Hardware-agnostic ADC API: the options an ADC is opened with and the
//! interface every ADC driver implements.
use vstd::prelude::*;
use vstd::std_specs::cmp::PartialEqSpecImpl;
use crate::dma::DmaTrait;
use crate::unit_interval::UnitInterval;

verus! {

/// Every ADC instance across all supported MCUs.
#[derive(Debug, Clone, Copy, PartialEq, Eq, Structural)]
pub enum AdcInstance {
    Stm32g4Adc1,
    Stm32g4Adc2,
    Stm32g4Adc3,
    Stm32g4Adc4,
    Stm32g4Adc5,
}

/// Maximum number of channels one [`AdcOptions`] sequence can hold, and the
/// capacity of every [`AdcSampleBuffer`].
pub const MAX_ADC_SEQUENCE_LENGTH: usize = 16;

/// What starts a triggered [`AdcOptions`] sequence converting.
#[derive(Debug, Clone, Copy, PartialEq, Eq, Structural)]
pub enum AdcTriggerSource {
    /// Only [`AdcTrait::trigger`] starts a conversion.
    Software,
    /// TIM1's TRGO (update event) wire.
    Stm32g4Tim1TriggerOut1Rising,
    /// TIM1's TRGO2 wire (e.g. a PWM's mid-point trigger).
    Stm32g4Tim1TriggerOut2Rising,
    /// TIM8's TRGO (update event) wire.
    Stm32g4Tim8TriggerOut1Rising,
    /// TIM8's TRGO2 wire.
    Stm32g4Tim8TriggerOut2Rising,
    /// TIM20's TRGO (update event) wire.
    Stm32g4Tim20TriggerOut1Rising,
    /// TIM20's TRGO2 wire.
    Stm32g4Tim20TriggerOut2Rising,
}

/// The name a trigger source goes by, as its variant is spelled.
pub open spec fn trigger_source_name(source: AdcTriggerSource) -> Seq<char> {
    match source {
        AdcTriggerSource::Software => "Software"@,
        AdcTriggerSource::Stm32g4Tim1TriggerOut1Rising => "Stm32g4Tim1TriggerOut1Rising"@,
        AdcTriggerSource::Stm32g4Tim1TriggerOut2Rising => "Stm32g4Tim1TriggerOut2Rising"@,
        AdcTriggerSource::Stm32g4Tim8TriggerOut1Rising => "Stm32g4Tim8TriggerOut1Rising"@,
        AdcTriggerSource::Stm32g4Tim8TriggerOut2Rising => "Stm32g4Tim8TriggerOut2Rising"@,
        AdcTriggerSource::Stm32g4Tim20TriggerOut1Rising => "Stm32g4Tim20TriggerOut1Rising"@,
        AdcTriggerSource::Stm32g4Tim20TriggerOut2Rising => "Stm32g4Tim20TriggerOut2Rising"@,
    }
}

impl AdcTriggerSource {
    /// The name the source goes by, as its variant is spelled; simulated
    /// trigger-out signals fire under it.
    pub fn name(self) -> (name: &'static str)
        ensures
            name@ == trigger_source_name(self),
    {
        match self {
            AdcTriggerSource::Software => "Software",
            AdcTriggerSource::Stm32g4Tim1TriggerOut1Rising => "Stm32g4Tim1TriggerOut1Rising",
            AdcTriggerSource::Stm32g4Tim1TriggerOut2Rising => "Stm32g4Tim1TriggerOut2Rising",
            AdcTriggerSource::Stm32g4Tim8TriggerOut1Rising => "Stm32g4Tim8TriggerOut1Rising",
            AdcTriggerSource::Stm32g4Tim8TriggerOut2Rising => "Stm32g4Tim8TriggerOut2Rising",
            AdcTriggerSource::Stm32g4Tim20TriggerOut1Rising => "Stm32g4Tim20TriggerOut1Rising",
            AdcTriggerSource::Stm32g4Tim20TriggerOut2Rising => "Stm32g4Tim20TriggerOut2Rising",
        }
    }
}

/// The destination buffer for one open ADC's converted samples, holding up
/// to [`MAX_ADC_SEQUENCE_LENGTH`] `u16` results. A caller only creates one
/// and hands a `'static` reference to it to [`AdcOptions::new`]; an
/// [`AdcOptions`] identifies its buffer by address.
#[derive(Debug)]
pub struct AdcSampleBuffer {
    samples: [u16; MAX_ADC_SEQUENCE_LENGTH],
}

impl AdcSampleBuffer {
    /// Creates a zeroed buffer.
    pub fn new() -> (buffer: Self)
        ensures
            buffer.samples() == Seq::new(MAX_ADC_SEQUENCE_LENGTH as nat, |i: int| 0u16),
    {
        AdcSampleBuffer { samples: [0u16; MAX_ADC_SEQUENCE_LENGTH] }
    }

    /// The samples the buffer holds.
    pub closed spec fn samples(&self) -> Seq<u16> {
        self.samples@
    }
}

impl Default for AdcSampleBuffer {
    fn default() -> (buffer: Self)
        ensures
            buffer.samples() == Seq::new(MAX_ADC_SEQUENCE_LENGTH as nat, |i: int| 0u16),
    {
        Self::new()
    }
}

/// Whether `a` and `b` are the same buffer (the same address), as
/// `core::ptr::eq` decides. Nothing is stated of the result: Verus models a
/// reference by the value it points to, so it has no notion of an address.
#[verifier::external_body]
fn same_buffer(a: &'static AdcSampleBuffer, b: &'static AdcSampleBuffer) -> bool {
    core::ptr::eq(a, b)
}

/// Options for opening an ADC: the channel sequence to convert, where the
/// results land, and what starts a conversion.
#[derive(Debug, Clone, Copy)]
pub struct AdcOptions {
    /// Only the first `sequence_length` entries are meaningful.
    channels: [u8; MAX_ADC_SEQUENCE_LENGTH],
    sequence_length: u8,
    buffer: &'static AdcSampleBuffer,
    trigger_source: AdcTriggerSource,
}

impl AdcOptions {
    #[verifier::type_invariant]
    spec fn length_fits(self) -> bool {
        self.sequence_length as int <= MAX_ADC_SEQUENCE_LENGTH
    }

    /// The channel sequence, in conversion order.
    pub closed spec fn channel_sequence(self) -> Seq<u8> {
        self.channels@.subrange(0, self.sequence_length as int)
    }

    /// What starts a conversion.
    pub closed spec fn trigger(self) -> AdcTriggerSource {
        self.trigger_source
    }

    /// The buffer the conversions land in.
    pub closed spec fn sample_buffer(self) -> &'static AdcSampleBuffer {
        self.buffer
    }

    /// Builds options converting `channels`, in order: `channels[0]` lands
    /// in sequence position 0, readable back via `get_sample(0)`, and so on.
    /// At most [`MAX_ADC_SEQUENCE_LENGTH`] channels.
    pub fn new(
        channels: &[u8],
        buffer: &'static AdcSampleBuffer,
        trigger_source: AdcTriggerSource,
    ) -> (options: Self)
        requires
            channels@.len() <= MAX_ADC_SEQUENCE_LENGTH,
        ensures
            options.channel_sequence() == channels@,
            options.trigger() == trigger_source,
            options.sample_buffer() == buffer,
    {
        let mut buf = [0u8; MAX_ADC_SEQUENCE_LENGTH];
        let mut i: usize = 0;
        while i < channels.len()
            invariant
                i <= channels@.len() <= MAX_ADC_SEQUENCE_LENGTH,
                buf@.len() == MAX_ADC_SEQUENCE_LENGTH,
                forall|j: int| 0 <= j < i ==> buf@[j] == channels@[j],
            decreases channels@.len() - i,
        {
            buf[i] = channels[i];
            i += 1;
        }
        proof {
            assert(buf@.subrange(0, channels@.len() as int) =~= channels@);
        }
        AdcOptions {
            channels: buf,
            sequence_length: channels.len() as u8,
            buffer,
            trigger_source,
        }
    }

    /// The configured channel sequence, in conversion order.
    pub fn sequence(&self) -> (sequence: &[u8])
        ensures
            sequence@ == self.channel_sequence(),
            sequence@.len() <= MAX_ADC_SEQUENCE_LENGTH,
    {
        proof {
            use_type_invariant(self);
        }
        let (sequence, _) = self.channels.as_slice().split_at(self.sequence_length as usize);
        sequence
    }

    /// What starts a triggered sequence converting.
    pub fn trigger_source(&self) -> (source: AdcTriggerSource)
        ensures
            source == self.trigger(),
    {
        self.trigger_source
    }

    /// The buffer this sequence's conversions land in.
    pub fn buffer(&self) -> (buffer: &'static AdcSampleBuffer)
        ensures
            buffer == self.sample_buffer(),
    {
        self.buffer
    }
}

/// Whether two channel sequences hold the same channels in the same order.
fn same_sequence(a: &[u8], b: &[u8]) -> (same: bool)
    ensures
        same == (a@ == b@),
{
    if a.len() != b.len() {
        return false;
    }
    let mut i: usize = 0;
    while i < a.len()
        invariant
            i <= a@.len() == b@.len(),
            forall|j: int| 0 <= j < i ==> a@[j] == b@[j],
        decreases a@.len() - i,
    {
        if a[i] != b[i] {
            return false;
        }
        i += 1;
    }
    proof {
        assert(a@ =~= b@);
    }
    true
}

/// Two options are equal when they configure the same sequence, the same
/// trigger source and the same buffer — compared by address, not contents:
/// a buffer's contents change whenever a conversion lands in it.
impl PartialEq for AdcOptions {
    fn eq(&self, other: &Self) -> (equal: bool)
        ensures
            equal ==> self.channel_sequence() == other.channel_sequence() && self.trigger()
                == other.trigger(),
            self.channel_sequence() != other.channel_sequence() || self.trigger() != other.trigger()
                ==> !equal,
    {
        same_sequence(self.sequence(), other.sequence()) && same_buffer(self.buffer, other.buffer)
            && self.trigger_source == other.trigger_source
    }
}

impl PartialEqSpecImpl for AdcOptions {
    open spec fn obeys_eq_spec() -> bool {
        false
    }

    open spec fn eq_spec(&self, other: &AdcOptions) -> bool {
        self.channel_sequence() == other.channel_sequence() && self.trigger() == other.trigger()
    }
}

impl Eq for AdcOptions {

}

/// The interface every ADC driver implements. An ADC is [`Self::open`]ed
/// (which calibrates it) before use and [`Self::close`]d when done. With
/// [`AdcTriggerSource::Software`] each [`Self::trigger`] call converts the
/// whole sequence; with any other trigger source `open` already arms the
/// ADC for the wire's edges. Either way [`Self::try_retrieve_result`] must
/// be polled to learn when a sequence has finished (for a wire trigger it
/// also re-arms the ADC), and [`Self::get_sample`] reads back one
/// channel's result by its position in the sequence.
pub trait AdcTrait {
    /// The options of the last [`Self::open`], while open.
    spec fn opened_with(&self) -> Option<AdcOptions>;

    /// Whether a triggered conversion has finished and not been retrieved.
    spec fn finished(&self) -> bool;

    /// The sample at sequence position `index`, as a raw [`UnitInterval`].
    spec fn sample(&self, index: int) -> int;

    /// Calibrates and configures the ADC; `dma` is where it looks up the
    /// channel a board allocated for this ADC's conversions.
    fn open<D: DmaTrait>(&mut self, options: AdcOptions, dma: &D)
        ensures
            final(self).opened_with() == Some(options),
            !final(self).finished(),
    ;

    /// Powers the ADC back down.
    fn close(&mut self)
        ensures
            final(self).opened_with() is None,
            !final(self).finished(),
    ;

    /// Starts converting the channel sequence (software trigger only).
    fn trigger(&mut self)
        ensures
            final(self).opened_with() == old(self).opened_with(),
    ;

    /// `true` exactly once per triggered conversion: on the first call that
    /// observes it has finished.
    fn try_retrieve_result(&mut self) -> (done: bool)
        ensures
            done == old(self).finished(),
            !final(self).finished(),
            final(self).opened_with() == old(self).opened_with(),
    ;

    /// The result for the channel at `sequence_index`, as a fraction of the
    /// ADC's full-scale reading.
    fn get_sample(&self, sequence_index: u8) -> (value: UnitInterval)
        ensures
            (self.opened_with() matches Some(options) && sequence_index
                < options.channel_sequence().len()) ==> value@ == self.sample(sequence_index as int),
    ;
}

} // verus!
