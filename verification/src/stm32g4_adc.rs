//! Where the STM32G4 ADC driver writes an [`crate::adc::AdcOptions`] into
//! the ADC's registers (RM0440 21.4): the regular-sequence register and
//! field each rank goes in, the sample-time register and field of each
//! channel, and the external-trigger selection of each trigger source.
use vstd::prelude::*;
use crate::adc::{AdcTriggerSource, MAX_ADC_SEQUENCE_LENGTH};

verus! {

/// Which edges of the selected external trigger start a conversion
/// (`CFGR.EXTEN`).
#[derive(Debug, Clone, Copy, PartialEq, Eq, Structural)]
pub enum TriggerEdge {
    /// Hardware triggers are ignored: only software starts a conversion.
    Disabled,
    /// Each rising edge starts a conversion.
    RisingEdge,
}

/// The regular-sequence register (`SQR1` to `SQR4`, by number) and the
/// field within it that sequence rank `rank` occupies: four ranks in
/// `SQR1`, then five each in `SQR2` and `SQR3`, and the last two in `SQR4`.
pub open spec fn rank_slot(rank: int) -> (int, int) {
    if rank <= 3 {
        (1, rank)
    } else if rank <= 8 {
        (2, rank - 4)
    } else if rank <= 13 {
        (3, rank - 9)
    } else {
        (4, rank - 14)
    }
}

/// Where sequence rank `rank` is written: see [`rank_slot`]. A sequence
/// holds at most [`MAX_ADC_SEQUENCE_LENGTH`] ranks.
pub fn sequence_rank_slot(rank: usize) -> (slot: (u8, usize))
    requires
        rank < MAX_ADC_SEQUENCE_LENGTH,
    ensures
        slot.0 == rank_slot(rank as int).0,
        slot.1 == rank_slot(rank as int).1,
{
    if rank <= 3 {
        (1, rank)
    } else if rank <= 8 {
        (2, rank - 4)
    } else if rank <= 13 {
        (3, rank - 9)
    } else {
        (4, rank - 14)
    }
}

/// The sample-time register (`SMPR1` for channels 0 to 9, `SMPR2` from 10
/// on, by number) and the field within it of `channel`.
pub fn sample_time_slot(channel: u8) -> (slot: (u8, u8))
    ensures
        slot.0 == if channel < 10 {
            1u8
        } else {
            2u8
        },
        slot.1 == if channel < 10 {
            channel as int
        } else {
            channel - 10
        },
{
    if channel < 10 {
        (1, channel)
    } else {
        (2, channel - 10)
    }
}

/// The `CFGR.EXTSEL` code of each hardware trigger source, the same for
/// every ADC instance (RM0440 table 152); 0 for the software trigger, whose
/// selection is ignored.
pub open spec fn extsel_code(source: AdcTriggerSource) -> int {
    match source {
        AdcTriggerSource::Software => 0,
        AdcTriggerSource::Stm32g4Tim1TriggerOut1Rising => 9,
        AdcTriggerSource::Stm32g4Tim1TriggerOut2Rising => 10,
        AdcTriggerSource::Stm32g4Tim8TriggerOut1Rising => 7,
        AdcTriggerSource::Stm32g4Tim8TriggerOut2Rising => 8,
        AdcTriggerSource::Stm32g4Tim20TriggerOut1Rising => 16,
        AdcTriggerSource::Stm32g4Tim20TriggerOut2Rising => 17,
    }
}

/// The `CFGR.EXTSEL` code and `CFGR.EXTEN` edge that route conversions to
/// `source`: a hardware source always starts on its rising edge.
pub fn extsel_exten(source: AdcTriggerSource) -> (selection: (u8, TriggerEdge))
    ensures
        selection.0 == extsel_code(source),
        selection.1 == if source == AdcTriggerSource::Software {
            TriggerEdge::Disabled
        } else {
            TriggerEdge::RisingEdge
        },
{
    match source {
        AdcTriggerSource::Software => (0, TriggerEdge::Disabled),
        AdcTriggerSource::Stm32g4Tim1TriggerOut1Rising => (9, TriggerEdge::RisingEdge),
        AdcTriggerSource::Stm32g4Tim1TriggerOut2Rising => (10, TriggerEdge::RisingEdge),
        AdcTriggerSource::Stm32g4Tim8TriggerOut1Rising => (7, TriggerEdge::RisingEdge),
        AdcTriggerSource::Stm32g4Tim8TriggerOut2Rising => (8, TriggerEdge::RisingEdge),
        AdcTriggerSource::Stm32g4Tim20TriggerOut1Rising => (16, TriggerEdge::RisingEdge),
        AdcTriggerSource::Stm32g4Tim20TriggerOut2Rising => (17, TriggerEdge::RisingEdge),
    }
}

/// Every rank of a sequence has a slot of its own: no two ranks share a
/// register field, and every field index is within its register's.
pub proof fn law_ranks_have_distinct_slots(a: int, b: int)
    requires
        0 <= a < MAX_ADC_SEQUENCE_LENGTH,
        0 <= b < MAX_ADC_SEQUENCE_LENGTH,
        a != b,
    ensures
        rank_slot(a) != rank_slot(b),
        0 <= rank_slot(a).1 < 5,
{
}

} // verus!
