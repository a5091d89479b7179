//! Hardware-agnostic DMA request routing: which request line feeds which
//! DMA channel. Moving data is up to the peripheral drivers that use a
//! channel; this API only tracks (and, on real hardware, programs) the
//! routing.
use vstd::prelude::*;

verus! {

/// Every DMA controller instance this API knows about, named
/// `<Family><Instance>`.
#[derive(Debug, Clone, Copy, PartialEq, Eq, Structural, Hash)]
pub enum DmaInstance {
    Stm32g4Dma1,
    Stm32g4Dma2,
}

/// One DMA channel: a specific channel number of a specific
/// [`DmaInstance`]. What channel numbers mean (how many exist, whether they
/// start at 0 or 1) is up to the [`DmaTrait`] implementation — on STM32G4
/// they are the 1-based numbers of the hardware's `DMAn_CHm` naming.
#[derive(Debug, Clone, Copy, PartialEq, Eq, Structural, Hash)]
pub struct DmaChannel {
    pub instance: DmaInstance,
    pub channel: u8,
}

impl DmaChannel {
    /// Names channel `channel` of `instance`.
    pub fn new(instance: DmaInstance, channel: u8) -> (c: Self)
        ensures
            c == (DmaChannel { instance, channel }),
    {
        DmaChannel { instance, channel }
    }
}

/// Every DMA request line this API knows how to route. The STM32G4 lines
/// (`Stm32g4DmamuxReq*`, one per row of RM0440 Table 91) are identified by
/// [`DmaRequest::id`], the value the request multiplexer's `DMAREQ_ID`
/// field holds for them; id 40 is reserved and names no line.
/// [`DmaRequest::NoRequest`] (id 0, and the default) selects no hardware
/// request line, e.g. for a software-triggered or memory-to-memory
/// transfer.
#[derive(Debug, Clone, Copy, PartialEq, Eq, Structural, Default)]
pub enum DmaRequest {
    #[default]
    NoRequest,
    Stm32g4DmamuxReqGen0,
    Stm32g4DmamuxReqGen1,
    Stm32g4DmamuxReqGen2,
    Stm32g4DmamuxReqGen3,
    Stm32g4DmamuxReqAdc1,
    Stm32g4DmamuxReqDac1Ch1,
    Stm32g4DmamuxReqDac1Ch2,
    Stm32g4DmamuxReqTim6Up,
    Stm32g4DmamuxReqTim7Up,
    Stm32g4DmamuxReqSpi1Rx,
    Stm32g4DmamuxReqSpi1Tx,
    Stm32g4DmamuxReqSpi2Rx,
    Stm32g4DmamuxReqSpi2Tx,
    Stm32g4DmamuxReqSpi3Rx,
    Stm32g4DmamuxReqSpi3Tx,
    Stm32g4DmamuxReqI2c1Rx,
    Stm32g4DmamuxReqI2c1Tx,
    Stm32g4DmamuxReqI2c2Rx,
    Stm32g4DmamuxReqI2c2Tx,
    Stm32g4DmamuxReqI2c3Rx,
    Stm32g4DmamuxReqI2c3Tx,
    Stm32g4DmamuxReqI2c4Rx,
    Stm32g4DmamuxReqI2c4Tx,
    Stm32g4DmamuxReqUsart1Rx,
    Stm32g4DmamuxReqUsart1Tx,
    Stm32g4DmamuxReqUsart2Rx,
    Stm32g4DmamuxReqUsart2Tx,
    Stm32g4DmamuxReqUsart3Rx,
    Stm32g4DmamuxReqUsart3Tx,
    Stm32g4DmamuxReqUart4Rx,
    Stm32g4DmamuxReqUart4Tx,
    Stm32g4DmamuxReqUart5Rx,
    Stm32g4DmamuxReqUart5Tx,
    Stm32g4DmamuxReqLpuart1Rx,
    Stm32g4DmamuxReqLpuart1Tx,
    Stm32g4DmamuxReqAdc2,
    Stm32g4DmamuxReqAdc3,
    Stm32g4DmamuxReqAdc4,
    Stm32g4DmamuxReqAdc5,
    Stm32g4DmamuxReqDac2Ch1,
    Stm32g4DmamuxReqTim1Ch1,
    Stm32g4DmamuxReqTim1Ch2,
    Stm32g4DmamuxReqTim1Ch3,
    Stm32g4DmamuxReqTim1Ch4,
    Stm32g4DmamuxReqTim1Up,
    Stm32g4DmamuxReqTim1Trig,
    Stm32g4DmamuxReqTim1Com,
    Stm32g4DmamuxReqTim8Ch1,
    Stm32g4DmamuxReqTim8Ch2,
    Stm32g4DmamuxReqTim8Ch3,
    Stm32g4DmamuxReqTim8Ch4,
    Stm32g4DmamuxReqTim8Up,
    Stm32g4DmamuxReqTim8Trig,
    Stm32g4DmamuxReqTim8Com,
    Stm32g4DmamuxReqTim2Ch1,
    Stm32g4DmamuxReqTim2Ch2,
    Stm32g4DmamuxReqTim2Ch3,
    Stm32g4DmamuxReqTim2Ch4,
    Stm32g4DmamuxReqTim2Up,
    Stm32g4DmamuxReqTim3Ch1,
    Stm32g4DmamuxReqTim3Ch2,
    Stm32g4DmamuxReqTim3Ch3,
    Stm32g4DmamuxReqTim3Ch4,
    Stm32g4DmamuxReqTim3Up,
    Stm32g4DmamuxReqTim3Trig,
    Stm32g4DmamuxReqTim4Ch1,
    Stm32g4DmamuxReqTim4Ch2,
    Stm32g4DmamuxReqTim4Ch3,
    Stm32g4DmamuxReqTim4Ch4,
    Stm32g4DmamuxReqTim4Up,
    Stm32g4DmamuxReqTim5Ch1,
    Stm32g4DmamuxReqTim5Ch2,
    Stm32g4DmamuxReqTim5Ch3,
    Stm32g4DmamuxReqTim5Ch4,
    Stm32g4DmamuxReqTim5Up,
    Stm32g4DmamuxReqTim5Trig,
    Stm32g4DmamuxReqTim15Ch1,
    Stm32g4DmamuxReqTim15Up,
    Stm32g4DmamuxReqTim15Trig,
    Stm32g4DmamuxReqTim15Com,
    Stm32g4DmamuxReqTim16Ch1,
    Stm32g4DmamuxReqTim16Up,
    Stm32g4DmamuxReqTim17Ch1,
    Stm32g4DmamuxReqTim17Up,
    Stm32g4DmamuxReqTim20Ch1,
    Stm32g4DmamuxReqTim20Ch2,
    Stm32g4DmamuxReqTim20Ch3,
    Stm32g4DmamuxReqTim20Ch4,
    Stm32g4DmamuxReqTim20Up,
    Stm32g4DmamuxReqAesIn,
    Stm32g4DmamuxReqAesOut,
    Stm32g4DmamuxReqTim20Trig,
    Stm32g4DmamuxReqTim20Com,
    Stm32g4DmamuxReqHrtim1M,
    Stm32g4DmamuxReqHrtim1A,
    Stm32g4DmamuxReqHrtim1B,
    Stm32g4DmamuxReqHrtim1C,
    Stm32g4DmamuxReqHrtim1D,
    Stm32g4DmamuxReqHrtim1E,
    Stm32g4DmamuxReqHrtim1F,
    Stm32g4DmamuxReqDac3Ch1,
    Stm32g4DmamuxReqDac3Ch2,
    Stm32g4DmamuxReqDac4Ch1,
    Stm32g4DmamuxReqDac4Ch2,
    Stm32g4DmamuxReqSpi4Rx,
    Stm32g4DmamuxReqSpi4Tx,
    Stm32g4DmamuxReqSai1A,
    Stm32g4DmamuxReqSai1B,
    Stm32g4DmamuxReqFmacRead,
    Stm32g4DmamuxReqFmacWrite,
    Stm32g4DmamuxReqCordicRead,
    Stm32g4DmamuxReqCordicWrite,
    Stm32g4DmamuxReqUcpd1Rx,
    Stm32g4DmamuxReqUcpd1Tx,
}

/// Whether `id` is a request-multiplexer id some [`DmaRequest`] has: 0 to
/// 115, except the reserved 40.
pub open spec fn is_request_id(id: u8) -> bool {
    id <= 115 && id != 40
}

impl DmaRequest {
    /// The request-multiplexer id of this request line.
    pub open spec fn code(self) -> u8 {
        match self {
            DmaRequest::NoRequest => 0,
            DmaRequest::Stm32g4DmamuxReqGen0 => 1,
            DmaRequest::Stm32g4DmamuxReqGen1 => 2,
            DmaRequest::Stm32g4DmamuxReqGen2 => 3,
            DmaRequest::Stm32g4DmamuxReqGen3 => 4,
            DmaRequest::Stm32g4DmamuxReqAdc1 => 5,
            DmaRequest::Stm32g4DmamuxReqDac1Ch1 => 6,
            DmaRequest::Stm32g4DmamuxReqDac1Ch2 => 7,
            DmaRequest::Stm32g4DmamuxReqTim6Up => 8,
            DmaRequest::Stm32g4DmamuxReqTim7Up => 9,
            DmaRequest::Stm32g4DmamuxReqSpi1Rx => 10,
            DmaRequest::Stm32g4DmamuxReqSpi1Tx => 11,
            DmaRequest::Stm32g4DmamuxReqSpi2Rx => 12,
            DmaRequest::Stm32g4DmamuxReqSpi2Tx => 13,
            DmaRequest::Stm32g4DmamuxReqSpi3Rx => 14,
            DmaRequest::Stm32g4DmamuxReqSpi3Tx => 15,
            DmaRequest::Stm32g4DmamuxReqI2c1Rx => 16,
            DmaRequest::Stm32g4DmamuxReqI2c1Tx => 17,
            DmaRequest::Stm32g4DmamuxReqI2c2Rx => 18,
            DmaRequest::Stm32g4DmamuxReqI2c2Tx => 19,
            DmaRequest::Stm32g4DmamuxReqI2c3Rx => 20,
            DmaRequest::Stm32g4DmamuxReqI2c3Tx => 21,
            DmaRequest::Stm32g4DmamuxReqI2c4Rx => 22,
            DmaRequest::Stm32g4DmamuxReqI2c4Tx => 23,
            DmaRequest::Stm32g4DmamuxReqUsart1Rx => 24,
            DmaRequest::Stm32g4DmamuxReqUsart1Tx => 25,
            DmaRequest::Stm32g4DmamuxReqUsart2Rx => 26,
            DmaRequest::Stm32g4DmamuxReqUsart2Tx => 27,
            DmaRequest::Stm32g4DmamuxReqUsart3Rx => 28,
            DmaRequest::Stm32g4DmamuxReqUsart3Tx => 29,
            DmaRequest::Stm32g4DmamuxReqUart4Rx => 30,
            DmaRequest::Stm32g4DmamuxReqUart4Tx => 31,
            DmaRequest::Stm32g4DmamuxReqUart5Rx => 32,
            DmaRequest::Stm32g4DmamuxReqUart5Tx => 33,
            DmaRequest::Stm32g4DmamuxReqLpuart1Rx => 34,
            DmaRequest::Stm32g4DmamuxReqLpuart1Tx => 35,
            DmaRequest::Stm32g4DmamuxReqAdc2 => 36,
            DmaRequest::Stm32g4DmamuxReqAdc3 => 37,
            DmaRequest::Stm32g4DmamuxReqAdc4 => 38,
            DmaRequest::Stm32g4DmamuxReqAdc5 => 39,
            DmaRequest::Stm32g4DmamuxReqDac2Ch1 => 41,
            DmaRequest::Stm32g4DmamuxReqTim1Ch1 => 42,
            DmaRequest::Stm32g4DmamuxReqTim1Ch2 => 43,
            DmaRequest::Stm32g4DmamuxReqTim1Ch3 => 44,
            DmaRequest::Stm32g4DmamuxReqTim1Ch4 => 45,
            DmaRequest::Stm32g4DmamuxReqTim1Up => 46,
            DmaRequest::Stm32g4DmamuxReqTim1Trig => 47,
            DmaRequest::Stm32g4DmamuxReqTim1Com => 48,
            DmaRequest::Stm32g4DmamuxReqTim8Ch1 => 49,
            DmaRequest::Stm32g4DmamuxReqTim8Ch2 => 50,
            DmaRequest::Stm32g4DmamuxReqTim8Ch3 => 51,
            DmaRequest::Stm32g4DmamuxReqTim8Ch4 => 52,
            DmaRequest::Stm32g4DmamuxReqTim8Up => 53,
            DmaRequest::Stm32g4DmamuxReqTim8Trig => 54,
            DmaRequest::Stm32g4DmamuxReqTim8Com => 55,
            DmaRequest::Stm32g4DmamuxReqTim2Ch1 => 56,
            DmaRequest::Stm32g4DmamuxReqTim2Ch2 => 57,
            DmaRequest::Stm32g4DmamuxReqTim2Ch3 => 58,
            DmaRequest::Stm32g4DmamuxReqTim2Ch4 => 59,
            DmaRequest::Stm32g4DmamuxReqTim2Up => 60,
            DmaRequest::Stm32g4DmamuxReqTim3Ch1 => 61,
            DmaRequest::Stm32g4DmamuxReqTim3Ch2 => 62,
            DmaRequest::Stm32g4DmamuxReqTim3Ch3 => 63,
            DmaRequest::Stm32g4DmamuxReqTim3Ch4 => 64,
            DmaRequest::Stm32g4DmamuxReqTim3Up => 65,
            DmaRequest::Stm32g4DmamuxReqTim3Trig => 66,
            DmaRequest::Stm32g4DmamuxReqTim4Ch1 => 67,
            DmaRequest::Stm32g4DmamuxReqTim4Ch2 => 68,
            DmaRequest::Stm32g4DmamuxReqTim4Ch3 => 69,
            DmaRequest::Stm32g4DmamuxReqTim4Ch4 => 70,
            DmaRequest::Stm32g4DmamuxReqTim4Up => 71,
            DmaRequest::Stm32g4DmamuxReqTim5Ch1 => 72,
            DmaRequest::Stm32g4DmamuxReqTim5Ch2 => 73,
            DmaRequest::Stm32g4DmamuxReqTim5Ch3 => 74,
            DmaRequest::Stm32g4DmamuxReqTim5Ch4 => 75,
            DmaRequest::Stm32g4DmamuxReqTim5Up => 76,
            DmaRequest::Stm32g4DmamuxReqTim5Trig => 77,
            DmaRequest::Stm32g4DmamuxReqTim15Ch1 => 78,
            DmaRequest::Stm32g4DmamuxReqTim15Up => 79,
            DmaRequest::Stm32g4DmamuxReqTim15Trig => 80,
            DmaRequest::Stm32g4DmamuxReqTim15Com => 81,
            DmaRequest::Stm32g4DmamuxReqTim16Ch1 => 82,
            DmaRequest::Stm32g4DmamuxReqTim16Up => 83,
            DmaRequest::Stm32g4DmamuxReqTim17Ch1 => 84,
            DmaRequest::Stm32g4DmamuxReqTim17Up => 85,
            DmaRequest::Stm32g4DmamuxReqTim20Ch1 => 86,
            DmaRequest::Stm32g4DmamuxReqTim20Ch2 => 87,
            DmaRequest::Stm32g4DmamuxReqTim20Ch3 => 88,
            DmaRequest::Stm32g4DmamuxReqTim20Ch4 => 89,
            DmaRequest::Stm32g4DmamuxReqTim20Up => 90,
            DmaRequest::Stm32g4DmamuxReqAesIn => 91,
            DmaRequest::Stm32g4DmamuxReqAesOut => 92,
            DmaRequest::Stm32g4DmamuxReqTim20Trig => 93,
            DmaRequest::Stm32g4DmamuxReqTim20Com => 94,
            DmaRequest::Stm32g4DmamuxReqHrtim1M => 95,
            DmaRequest::Stm32g4DmamuxReqHrtim1A => 96,
            DmaRequest::Stm32g4DmamuxReqHrtim1B => 97,
            DmaRequest::Stm32g4DmamuxReqHrtim1C => 98,
            DmaRequest::Stm32g4DmamuxReqHrtim1D => 99,
            DmaRequest::Stm32g4DmamuxReqHrtim1E => 100,
            DmaRequest::Stm32g4DmamuxReqHrtim1F => 101,
            DmaRequest::Stm32g4DmamuxReqDac3Ch1 => 102,
            DmaRequest::Stm32g4DmamuxReqDac3Ch2 => 103,
            DmaRequest::Stm32g4DmamuxReqDac4Ch1 => 104,
            DmaRequest::Stm32g4DmamuxReqDac4Ch2 => 105,
            DmaRequest::Stm32g4DmamuxReqSpi4Rx => 106,
            DmaRequest::Stm32g4DmamuxReqSpi4Tx => 107,
            DmaRequest::Stm32g4DmamuxReqSai1A => 108,
            DmaRequest::Stm32g4DmamuxReqSai1B => 109,
            DmaRequest::Stm32g4DmamuxReqFmacRead => 110,
            DmaRequest::Stm32g4DmamuxReqFmacWrite => 111,
            DmaRequest::Stm32g4DmamuxReqCordicRead => 112,
            DmaRequest::Stm32g4DmamuxReqCordicWrite => 113,
            DmaRequest::Stm32g4DmamuxReqUcpd1Rx => 114,
            DmaRequest::Stm32g4DmamuxReqUcpd1Tx => 115,
        }
    }

    /// The request line with request-multiplexer id `id`.
    pub open spec fn of_code(id: u8) -> DmaRequest
        recommends
            is_request_id(id),
    {
        if id == 0 {
            DmaRequest::NoRequest
        } else if id == 1 {
            DmaRequest::Stm32g4DmamuxReqGen0
        } else if id == 2 {
            DmaRequest::Stm32g4DmamuxReqGen1
        } else if id == 3 {
            DmaRequest::Stm32g4DmamuxReqGen2
        } else if id == 4 {
            DmaRequest::Stm32g4DmamuxReqGen3
        } else if id == 5 {
            DmaRequest::Stm32g4DmamuxReqAdc1
        } else if id == 6 {
            DmaRequest::Stm32g4DmamuxReqDac1Ch1
        } else if id == 7 {
            DmaRequest::Stm32g4DmamuxReqDac1Ch2
        } else if id == 8 {
            DmaRequest::Stm32g4DmamuxReqTim6Up
        } else if id == 9 {
            DmaRequest::Stm32g4DmamuxReqTim7Up
        } else if id == 10 {
            DmaRequest::Stm32g4DmamuxReqSpi1Rx
        } else if id == 11 {
            DmaRequest::Stm32g4DmamuxReqSpi1Tx
        } else if id == 12 {
            DmaRequest::Stm32g4DmamuxReqSpi2Rx
        } else if id == 13 {
            DmaRequest::Stm32g4DmamuxReqSpi2Tx
        } else if id == 14 {
            DmaRequest::Stm32g4DmamuxReqSpi3Rx
        } else if id == 15 {
            DmaRequest::Stm32g4DmamuxReqSpi3Tx
        } else if id == 16 {
            DmaRequest::Stm32g4DmamuxReqI2c1Rx
        } else if id == 17 {
            DmaRequest::Stm32g4DmamuxReqI2c1Tx
        } else if id == 18 {
            DmaRequest::Stm32g4DmamuxReqI2c2Rx
        } else if id == 19 {
            DmaRequest::Stm32g4DmamuxReqI2c2Tx
        } else if id == 20 {
            DmaRequest::Stm32g4DmamuxReqI2c3Rx
        } else if id == 21 {
            DmaRequest::Stm32g4DmamuxReqI2c3Tx
        } else if id == 22 {
            DmaRequest::Stm32g4DmamuxReqI2c4Rx
        } else if id == 23 {
            DmaRequest::Stm32g4DmamuxReqI2c4Tx
        } else if id == 24 {
            DmaRequest::Stm32g4DmamuxReqUsart1Rx
        } else if id == 25 {
            DmaRequest::Stm32g4DmamuxReqUsart1Tx
        } else if id == 26 {
            DmaRequest::Stm32g4DmamuxReqUsart2Rx
        } else if id == 27 {
            DmaRequest::Stm32g4DmamuxReqUsart2Tx
        } else if id == 28 {
            DmaRequest::Stm32g4DmamuxReqUsart3Rx
        } else if id == 29 {
            DmaRequest::Stm32g4DmamuxReqUsart3Tx
        } else if id == 30 {
            DmaRequest::Stm32g4DmamuxReqUart4Rx
        } else if id == 31 {
            DmaRequest::Stm32g4DmamuxReqUart4Tx
        } else if id == 32 {
            DmaRequest::Stm32g4DmamuxReqUart5Rx
        } else if id == 33 {
            DmaRequest::Stm32g4DmamuxReqUart5Tx
        } else if id == 34 {
            DmaRequest::Stm32g4DmamuxReqLpuart1Rx
        } else if id == 35 {
            DmaRequest::Stm32g4DmamuxReqLpuart1Tx
        } else if id == 36 {
            DmaRequest::Stm32g4DmamuxReqAdc2
        } else if id == 37 {
            DmaRequest::Stm32g4DmamuxReqAdc3
        } else if id == 38 {
            DmaRequest::Stm32g4DmamuxReqAdc4
        } else if id == 39 {
            DmaRequest::Stm32g4DmamuxReqAdc5
        } else if id == 41 {
            DmaRequest::Stm32g4DmamuxReqDac2Ch1
        } else if id == 42 {
            DmaRequest::Stm32g4DmamuxReqTim1Ch1
        } else if id == 43 {
            DmaRequest::Stm32g4DmamuxReqTim1Ch2
        } else if id == 44 {
            DmaRequest::Stm32g4DmamuxReqTim1Ch3
        } else if id == 45 {
            DmaRequest::Stm32g4DmamuxReqTim1Ch4
        } else if id == 46 {
            DmaRequest::Stm32g4DmamuxReqTim1Up
        } else if id == 47 {
            DmaRequest::Stm32g4DmamuxReqTim1Trig
        } else if id == 48 {
            DmaRequest::Stm32g4DmamuxReqTim1Com
        } else if id == 49 {
            DmaRequest::Stm32g4DmamuxReqTim8Ch1
        } else if id == 50 {
            DmaRequest::Stm32g4DmamuxReqTim8Ch2
        } else if id == 51 {
            DmaRequest::Stm32g4DmamuxReqTim8Ch3
        } else if id == 52 {
            DmaRequest::Stm32g4DmamuxReqTim8Ch4
        } else if id == 53 {
            DmaRequest::Stm32g4DmamuxReqTim8Up
        } else if id == 54 {
            DmaRequest::Stm32g4DmamuxReqTim8Trig
        } else if id == 55 {
            DmaRequest::Stm32g4DmamuxReqTim8Com
        } else if id == 56 {
            DmaRequest::Stm32g4DmamuxReqTim2Ch1
        } else if id == 57 {
            DmaRequest::Stm32g4DmamuxReqTim2Ch2
        } else if id == 58 {
            DmaRequest::Stm32g4DmamuxReqTim2Ch3
        } else if id == 59 {
            DmaRequest::Stm32g4DmamuxReqTim2Ch4
        } else if id == 60 {
            DmaRequest::Stm32g4DmamuxReqTim2Up
        } else if id == 61 {
            DmaRequest::Stm32g4DmamuxReqTim3Ch1
        } else if id == 62 {
            DmaRequest::Stm32g4DmamuxReqTim3Ch2
        } else if id == 63 {
            DmaRequest::Stm32g4DmamuxReqTim3Ch3
        } else if id == 64 {
            DmaRequest::Stm32g4DmamuxReqTim3Ch4
        } else if id == 65 {
            DmaRequest::Stm32g4DmamuxReqTim3Up
        } else if id == 66 {
            DmaRequest::Stm32g4DmamuxReqTim3Trig
        } else if id == 67 {
            DmaRequest::Stm32g4DmamuxReqTim4Ch1
        } else if id == 68 {
            DmaRequest::Stm32g4DmamuxReqTim4Ch2
        } else if id == 69 {
            DmaRequest::Stm32g4DmamuxReqTim4Ch3
        } else if id == 70 {
            DmaRequest::Stm32g4DmamuxReqTim4Ch4
        } else if id == 71 {
            DmaRequest::Stm32g4DmamuxReqTim4Up
        } else if id == 72 {
            DmaRequest::Stm32g4DmamuxReqTim5Ch1
        } else if id == 73 {
            DmaRequest::Stm32g4DmamuxReqTim5Ch2
        } else if id == 74 {
            DmaRequest::Stm32g4DmamuxReqTim5Ch3
        } else if id == 75 {
            DmaRequest::Stm32g4DmamuxReqTim5Ch4
        } else if id == 76 {
            DmaRequest::Stm32g4DmamuxReqTim5Up
        } else if id == 77 {
            DmaRequest::Stm32g4DmamuxReqTim5Trig
        } else if id == 78 {
            DmaRequest::Stm32g4DmamuxReqTim15Ch1
        } else if id == 79 {
            DmaRequest::Stm32g4DmamuxReqTim15Up
        } else if id == 80 {
            DmaRequest::Stm32g4DmamuxReqTim15Trig
        } else if id == 81 {
            DmaRequest::Stm32g4DmamuxReqTim15Com
        } else if id == 82 {
            DmaRequest::Stm32g4DmamuxReqTim16Ch1
        } else if id == 83 {
            DmaRequest::Stm32g4DmamuxReqTim16Up
        } else if id == 84 {
            DmaRequest::Stm32g4DmamuxReqTim17Ch1
        } else if id == 85 {
            DmaRequest::Stm32g4DmamuxReqTim17Up
        } else if id == 86 {
            DmaRequest::Stm32g4DmamuxReqTim20Ch1
        } else if id == 87 {
            DmaRequest::Stm32g4DmamuxReqTim20Ch2
        } else if id == 88 {
            DmaRequest::Stm32g4DmamuxReqTim20Ch3
        } else if id == 89 {
            DmaRequest::Stm32g4DmamuxReqTim20Ch4
        } else if id == 90 {
            DmaRequest::Stm32g4DmamuxReqTim20Up
        } else if id == 91 {
            DmaRequest::Stm32g4DmamuxReqAesIn
        } else if id == 92 {
            DmaRequest::Stm32g4DmamuxReqAesOut
        } else if id == 93 {
            DmaRequest::Stm32g4DmamuxReqTim20Trig
        } else if id == 94 {
            DmaRequest::Stm32g4DmamuxReqTim20Com
        } else if id == 95 {
            DmaRequest::Stm32g4DmamuxReqHrtim1M
        } else if id == 96 {
            DmaRequest::Stm32g4DmamuxReqHrtim1A
        } else if id == 97 {
            DmaRequest::Stm32g4DmamuxReqHrtim1B
        } else if id == 98 {
            DmaRequest::Stm32g4DmamuxReqHrtim1C
        } else if id == 99 {
            DmaRequest::Stm32g4DmamuxReqHrtim1D
        } else if id == 100 {
            DmaRequest::Stm32g4DmamuxReqHrtim1E
        } else if id == 101 {
            DmaRequest::Stm32g4DmamuxReqHrtim1F
        } else if id == 102 {
            DmaRequest::Stm32g4DmamuxReqDac3Ch1
        } else if id == 103 {
            DmaRequest::Stm32g4DmamuxReqDac3Ch2
        } else if id == 104 {
            DmaRequest::Stm32g4DmamuxReqDac4Ch1
        } else if id == 105 {
            DmaRequest::Stm32g4DmamuxReqDac4Ch2
        } else if id == 106 {
            DmaRequest::Stm32g4DmamuxReqSpi4Rx
        } else if id == 107 {
            DmaRequest::Stm32g4DmamuxReqSpi4Tx
        } else if id == 108 {
            DmaRequest::Stm32g4DmamuxReqSai1A
        } else if id == 109 {
            DmaRequest::Stm32g4DmamuxReqSai1B
        } else if id == 110 {
            DmaRequest::Stm32g4DmamuxReqFmacRead
        } else if id == 111 {
            DmaRequest::Stm32g4DmamuxReqFmacWrite
        } else if id == 112 {
            DmaRequest::Stm32g4DmamuxReqCordicRead
        } else if id == 113 {
            DmaRequest::Stm32g4DmamuxReqCordicWrite
        } else if id == 114 {
            DmaRequest::Stm32g4DmamuxReqUcpd1Rx
        } else {
            DmaRequest::Stm32g4DmamuxReqUcpd1Tx
        }
    }

    /// The request-multiplexer id of this request line (RM0440 Table 91).
    pub fn id(self) -> (id: u8)
        ensures
            id == self.code(),
    {
        match self {
            DmaRequest::NoRequest => 0,
            DmaRequest::Stm32g4DmamuxReqGen0 => 1,
            DmaRequest::Stm32g4DmamuxReqGen1 => 2,
            DmaRequest::Stm32g4DmamuxReqGen2 => 3,
            DmaRequest::Stm32g4DmamuxReqGen3 => 4,
            DmaRequest::Stm32g4DmamuxReqAdc1 => 5,
            DmaRequest::Stm32g4DmamuxReqDac1Ch1 => 6,
            DmaRequest::Stm32g4DmamuxReqDac1Ch2 => 7,
            DmaRequest::Stm32g4DmamuxReqTim6Up => 8,
            DmaRequest::Stm32g4DmamuxReqTim7Up => 9,
            DmaRequest::Stm32g4DmamuxReqSpi1Rx => 10,
            DmaRequest::Stm32g4DmamuxReqSpi1Tx => 11,
            DmaRequest::Stm32g4DmamuxReqSpi2Rx => 12,
            DmaRequest::Stm32g4DmamuxReqSpi2Tx => 13,
            DmaRequest::Stm32g4DmamuxReqSpi3Rx => 14,
            DmaRequest::Stm32g4DmamuxReqSpi3Tx => 15,
            DmaRequest::Stm32g4DmamuxReqI2c1Rx => 16,
            DmaRequest::Stm32g4DmamuxReqI2c1Tx => 17,
            DmaRequest::Stm32g4DmamuxReqI2c2Rx => 18,
            DmaRequest::Stm32g4DmamuxReqI2c2Tx => 19,
            DmaRequest::Stm32g4DmamuxReqI2c3Rx => 20,
            DmaRequest::Stm32g4DmamuxReqI2c3Tx => 21,
            DmaRequest::Stm32g4DmamuxReqI2c4Rx => 22,
            DmaRequest::Stm32g4DmamuxReqI2c4Tx => 23,
            DmaRequest::Stm32g4DmamuxReqUsart1Rx => 24,
            DmaRequest::Stm32g4DmamuxReqUsart1Tx => 25,
            DmaRequest::Stm32g4DmamuxReqUsart2Rx => 26,
            DmaRequest::Stm32g4DmamuxReqUsart2Tx => 27,
            DmaRequest::Stm32g4DmamuxReqUsart3Rx => 28,
            DmaRequest::Stm32g4DmamuxReqUsart3Tx => 29,
            DmaRequest::Stm32g4DmamuxReqUart4Rx => 30,
            DmaRequest::Stm32g4DmamuxReqUart4Tx => 31,
            DmaRequest::Stm32g4DmamuxReqUart5Rx => 32,
            DmaRequest::Stm32g4DmamuxReqUart5Tx => 33,
            DmaRequest::Stm32g4DmamuxReqLpuart1Rx => 34,
            DmaRequest::Stm32g4DmamuxReqLpuart1Tx => 35,
            DmaRequest::Stm32g4DmamuxReqAdc2 => 36,
            DmaRequest::Stm32g4DmamuxReqAdc3 => 37,
            DmaRequest::Stm32g4DmamuxReqAdc4 => 38,
            DmaRequest::Stm32g4DmamuxReqAdc5 => 39,
            DmaRequest::Stm32g4DmamuxReqDac2Ch1 => 41,
            DmaRequest::Stm32g4DmamuxReqTim1Ch1 => 42,
            DmaRequest::Stm32g4DmamuxReqTim1Ch2 => 43,
            DmaRequest::Stm32g4DmamuxReqTim1Ch3 => 44,
            DmaRequest::Stm32g4DmamuxReqTim1Ch4 => 45,
            DmaRequest::Stm32g4DmamuxReqTim1Up => 46,
            DmaRequest::Stm32g4DmamuxReqTim1Trig => 47,
            DmaRequest::Stm32g4DmamuxReqTim1Com => 48,
            DmaRequest::Stm32g4DmamuxReqTim8Ch1 => 49,
            DmaRequest::Stm32g4DmamuxReqTim8Ch2 => 50,
            DmaRequest::Stm32g4DmamuxReqTim8Ch3 => 51,
            DmaRequest::Stm32g4DmamuxReqTim8Ch4 => 52,
            DmaRequest::Stm32g4DmamuxReqTim8Up => 53,
            DmaRequest::Stm32g4DmamuxReqTim8Trig => 54,
            DmaRequest::Stm32g4DmamuxReqTim8Com => 55,
            DmaRequest::Stm32g4DmamuxReqTim2Ch1 => 56,
            DmaRequest::Stm32g4DmamuxReqTim2Ch2 => 57,
            DmaRequest::Stm32g4DmamuxReqTim2Ch3 => 58,
            DmaRequest::Stm32g4DmamuxReqTim2Ch4 => 59,
            DmaRequest::Stm32g4DmamuxReqTim2Up => 60,
            DmaRequest::Stm32g4DmamuxReqTim3Ch1 => 61,
            DmaRequest::Stm32g4DmamuxReqTim3Ch2 => 62,
            DmaRequest::Stm32g4DmamuxReqTim3Ch3 => 63,
            DmaRequest::Stm32g4DmamuxReqTim3Ch4 => 64,
            DmaRequest::Stm32g4DmamuxReqTim3Up => 65,
            DmaRequest::Stm32g4DmamuxReqTim3Trig => 66,
            DmaRequest::Stm32g4DmamuxReqTim4Ch1 => 67,
            DmaRequest::Stm32g4DmamuxReqTim4Ch2 => 68,
            DmaRequest::Stm32g4DmamuxReqTim4Ch3 => 69,
            DmaRequest::Stm32g4DmamuxReqTim4Ch4 => 70,
            DmaRequest::Stm32g4DmamuxReqTim4Up => 71,
            DmaRequest::Stm32g4DmamuxReqTim5Ch1 => 72,
            DmaRequest::Stm32g4DmamuxReqTim5Ch2 => 73,
            DmaRequest::Stm32g4DmamuxReqTim5Ch3 => 74,
            DmaRequest::Stm32g4DmamuxReqTim5Ch4 => 75,
            DmaRequest::Stm32g4DmamuxReqTim5Up => 76,
            DmaRequest::Stm32g4DmamuxReqTim5Trig => 77,
            DmaRequest::Stm32g4DmamuxReqTim15Ch1 => 78,
            DmaRequest::Stm32g4DmamuxReqTim15Up => 79,
            DmaRequest::Stm32g4DmamuxReqTim15Trig => 80,
            DmaRequest::Stm32g4DmamuxReqTim15Com => 81,
            DmaRequest::Stm32g4DmamuxReqTim16Ch1 => 82,
            DmaRequest::Stm32g4DmamuxReqTim16Up => 83,
            DmaRequest::Stm32g4DmamuxReqTim17Ch1 => 84,
            DmaRequest::Stm32g4DmamuxReqTim17Up => 85,
            DmaRequest::Stm32g4DmamuxReqTim20Ch1 => 86,
            DmaRequest::Stm32g4DmamuxReqTim20Ch2 => 87,
            DmaRequest::Stm32g4DmamuxReqTim20Ch3 => 88,
            DmaRequest::Stm32g4DmamuxReqTim20Ch4 => 89,
            DmaRequest::Stm32g4DmamuxReqTim20Up => 90,
            DmaRequest::Stm32g4DmamuxReqAesIn => 91,
            DmaRequest::Stm32g4DmamuxReqAesOut => 92,
            DmaRequest::Stm32g4DmamuxReqTim20Trig => 93,
            DmaRequest::Stm32g4DmamuxReqTim20Com => 94,
            DmaRequest::Stm32g4DmamuxReqHrtim1M => 95,
            DmaRequest::Stm32g4DmamuxReqHrtim1A => 96,
            DmaRequest::Stm32g4DmamuxReqHrtim1B => 97,
            DmaRequest::Stm32g4DmamuxReqHrtim1C => 98,
            DmaRequest::Stm32g4DmamuxReqHrtim1D => 99,
            DmaRequest::Stm32g4DmamuxReqHrtim1E => 100,
            DmaRequest::Stm32g4DmamuxReqHrtim1F => 101,
            DmaRequest::Stm32g4DmamuxReqDac3Ch1 => 102,
            DmaRequest::Stm32g4DmamuxReqDac3Ch2 => 103,
            DmaRequest::Stm32g4DmamuxReqDac4Ch1 => 104,
            DmaRequest::Stm32g4DmamuxReqDac4Ch2 => 105,
            DmaRequest::Stm32g4DmamuxReqSpi4Rx => 106,
            DmaRequest::Stm32g4DmamuxReqSpi4Tx => 107,
            DmaRequest::Stm32g4DmamuxReqSai1A => 108,
            DmaRequest::Stm32g4DmamuxReqSai1B => 109,
            DmaRequest::Stm32g4DmamuxReqFmacRead => 110,
            DmaRequest::Stm32g4DmamuxReqFmacWrite => 111,
            DmaRequest::Stm32g4DmamuxReqCordicRead => 112,
            DmaRequest::Stm32g4DmamuxReqCordicWrite => 113,
            DmaRequest::Stm32g4DmamuxReqUcpd1Rx => 114,
            DmaRequest::Stm32g4DmamuxReqUcpd1Tx => 115,
        }
    }
}

/// Converts a raw `DMAMUX_CxCR.DMAREQ_ID` value back into the request line
/// it names: the inverse of [`DmaRequest::id`]. `id` must name a line (not
/// the reserved 40, nor anything above 115).
pub fn dma_request_from_id(id: u8) -> (request: DmaRequest)
    requires
        is_request_id(id),
    ensures
        request == DmaRequest::of_code(id),
        request.code() == id,
{
    match id {
        0 => DmaRequest::NoRequest,
        1 => DmaRequest::Stm32g4DmamuxReqGen0,
        2 => DmaRequest::Stm32g4DmamuxReqGen1,
        3 => DmaRequest::Stm32g4DmamuxReqGen2,
        4 => DmaRequest::Stm32g4DmamuxReqGen3,
        5 => DmaRequest::Stm32g4DmamuxReqAdc1,
        6 => DmaRequest::Stm32g4DmamuxReqDac1Ch1,
        7 => DmaRequest::Stm32g4DmamuxReqDac1Ch2,
        8 => DmaRequest::Stm32g4DmamuxReqTim6Up,
        9 => DmaRequest::Stm32g4DmamuxReqTim7Up,
        10 => DmaRequest::Stm32g4DmamuxReqSpi1Rx,
        11 => DmaRequest::Stm32g4DmamuxReqSpi1Tx,
        12 => DmaRequest::Stm32g4DmamuxReqSpi2Rx,
        13 => DmaRequest::Stm32g4DmamuxReqSpi2Tx,
        14 => DmaRequest::Stm32g4DmamuxReqSpi3Rx,
        15 => DmaRequest::Stm32g4DmamuxReqSpi3Tx,
        16 => DmaRequest::Stm32g4DmamuxReqI2c1Rx,
        17 => DmaRequest::Stm32g4DmamuxReqI2c1Tx,
        18 => DmaRequest::Stm32g4DmamuxReqI2c2Rx,
        19 => DmaRequest::Stm32g4DmamuxReqI2c2Tx,
        20 => DmaRequest::Stm32g4DmamuxReqI2c3Rx,
        21 => DmaRequest::Stm32g4DmamuxReqI2c3Tx,
        22 => DmaRequest::Stm32g4DmamuxReqI2c4Rx,
        23 => DmaRequest::Stm32g4DmamuxReqI2c4Tx,
        24 => DmaRequest::Stm32g4DmamuxReqUsart1Rx,
        25 => DmaRequest::Stm32g4DmamuxReqUsart1Tx,
        26 => DmaRequest::Stm32g4DmamuxReqUsart2Rx,
        27 => DmaRequest::Stm32g4DmamuxReqUsart2Tx,
        28 => DmaRequest::Stm32g4DmamuxReqUsart3Rx,
        29 => DmaRequest::Stm32g4DmamuxReqUsart3Tx,
        30 => DmaRequest::Stm32g4DmamuxReqUart4Rx,
        31 => DmaRequest::Stm32g4DmamuxReqUart4Tx,
        32 => DmaRequest::Stm32g4DmamuxReqUart5Rx,
        33 => DmaRequest::Stm32g4DmamuxReqUart5Tx,
        34 => DmaRequest::Stm32g4DmamuxReqLpuart1Rx,
        35 => DmaRequest::Stm32g4DmamuxReqLpuart1Tx,
        36 => DmaRequest::Stm32g4DmamuxReqAdc2,
        37 => DmaRequest::Stm32g4DmamuxReqAdc3,
        38 => DmaRequest::Stm32g4DmamuxReqAdc4,
        39 => DmaRequest::Stm32g4DmamuxReqAdc5,
        41 => DmaRequest::Stm32g4DmamuxReqDac2Ch1,
        42 => DmaRequest::Stm32g4DmamuxReqTim1Ch1,
        43 => DmaRequest::Stm32g4DmamuxReqTim1Ch2,
        44 => DmaRequest::Stm32g4DmamuxReqTim1Ch3,
        45 => DmaRequest::Stm32g4DmamuxReqTim1Ch4,
        46 => DmaRequest::Stm32g4DmamuxReqTim1Up,
        47 => DmaRequest::Stm32g4DmamuxReqTim1Trig,
        48 => DmaRequest::Stm32g4DmamuxReqTim1Com,
        49 => DmaRequest::Stm32g4DmamuxReqTim8Ch1,
        50 => DmaRequest::Stm32g4DmamuxReqTim8Ch2,
        51 => DmaRequest::Stm32g4DmamuxReqTim8Ch3,
        52 => DmaRequest::Stm32g4DmamuxReqTim8Ch4,
        53 => DmaRequest::Stm32g4DmamuxReqTim8Up,
        54 => DmaRequest::Stm32g4DmamuxReqTim8Trig,
        55 => DmaRequest::Stm32g4DmamuxReqTim8Com,
        56 => DmaRequest::Stm32g4DmamuxReqTim2Ch1,
        57 => DmaRequest::Stm32g4DmamuxReqTim2Ch2,
        58 => DmaRequest::Stm32g4DmamuxReqTim2Ch3,
        59 => DmaRequest::Stm32g4DmamuxReqTim2Ch4,
        60 => DmaRequest::Stm32g4DmamuxReqTim2Up,
        61 => DmaRequest::Stm32g4DmamuxReqTim3Ch1,
        62 => DmaRequest::Stm32g4DmamuxReqTim3Ch2,
        63 => DmaRequest::Stm32g4DmamuxReqTim3Ch3,
        64 => DmaRequest::Stm32g4DmamuxReqTim3Ch4,
        65 => DmaRequest::Stm32g4DmamuxReqTim3Up,
        66 => DmaRequest::Stm32g4DmamuxReqTim3Trig,
        67 => DmaRequest::Stm32g4DmamuxReqTim4Ch1,
        68 => DmaRequest::Stm32g4DmamuxReqTim4Ch2,
        69 => DmaRequest::Stm32g4DmamuxReqTim4Ch3,
        70 => DmaRequest::Stm32g4DmamuxReqTim4Ch4,
        71 => DmaRequest::Stm32g4DmamuxReqTim4Up,
        72 => DmaRequest::Stm32g4DmamuxReqTim5Ch1,
        73 => DmaRequest::Stm32g4DmamuxReqTim5Ch2,
        74 => DmaRequest::Stm32g4DmamuxReqTim5Ch3,
        75 => DmaRequest::Stm32g4DmamuxReqTim5Ch4,
        76 => DmaRequest::Stm32g4DmamuxReqTim5Up,
        77 => DmaRequest::Stm32g4DmamuxReqTim5Trig,
        78 => DmaRequest::Stm32g4DmamuxReqTim15Ch1,
        79 => DmaRequest::Stm32g4DmamuxReqTim15Up,
        80 => DmaRequest::Stm32g4DmamuxReqTim15Trig,
        81 => DmaRequest::Stm32g4DmamuxReqTim15Com,
        82 => DmaRequest::Stm32g4DmamuxReqTim16Ch1,
        83 => DmaRequest::Stm32g4DmamuxReqTim16Up,
        84 => DmaRequest::Stm32g4DmamuxReqTim17Ch1,
        85 => DmaRequest::Stm32g4DmamuxReqTim17Up,
        86 => DmaRequest::Stm32g4DmamuxReqTim20Ch1,
        87 => DmaRequest::Stm32g4DmamuxReqTim20Ch2,
        88 => DmaRequest::Stm32g4DmamuxReqTim20Ch3,
        89 => DmaRequest::Stm32g4DmamuxReqTim20Ch4,
        90 => DmaRequest::Stm32g4DmamuxReqTim20Up,
        91 => DmaRequest::Stm32g4DmamuxReqAesIn,
        92 => DmaRequest::Stm32g4DmamuxReqAesOut,
        93 => DmaRequest::Stm32g4DmamuxReqTim20Trig,
        94 => DmaRequest::Stm32g4DmamuxReqTim20Com,
        95 => DmaRequest::Stm32g4DmamuxReqHrtim1M,
        96 => DmaRequest::Stm32g4DmamuxReqHrtim1A,
        97 => DmaRequest::Stm32g4DmamuxReqHrtim1B,
        98 => DmaRequest::Stm32g4DmamuxReqHrtim1C,
        99 => DmaRequest::Stm32g4DmamuxReqHrtim1D,
        100 => DmaRequest::Stm32g4DmamuxReqHrtim1E,
        101 => DmaRequest::Stm32g4DmamuxReqHrtim1F,
        102 => DmaRequest::Stm32g4DmamuxReqDac3Ch1,
        103 => DmaRequest::Stm32g4DmamuxReqDac3Ch2,
        104 => DmaRequest::Stm32g4DmamuxReqDac4Ch1,
        105 => DmaRequest::Stm32g4DmamuxReqDac4Ch2,
        106 => DmaRequest::Stm32g4DmamuxReqSpi4Rx,
        107 => DmaRequest::Stm32g4DmamuxReqSpi4Tx,
        108 => DmaRequest::Stm32g4DmamuxReqSai1A,
        109 => DmaRequest::Stm32g4DmamuxReqSai1B,
        110 => DmaRequest::Stm32g4DmamuxReqFmacRead,
        111 => DmaRequest::Stm32g4DmamuxReqFmacWrite,
        112 => DmaRequest::Stm32g4DmamuxReqCordicRead,
        113 => DmaRequest::Stm32g4DmamuxReqCordicWrite,
        114 => DmaRequest::Stm32g4DmamuxReqUcpd1Rx,
        _ => DmaRequest::Stm32g4DmamuxReqUcpd1Tx,
    }
}

/// Every request line's id names that line again.
pub proof fn lemma_request_id_round_trip(request: DmaRequest)
    ensures
        is_request_id(request.code()),
        DmaRequest::of_code(request.code()) == request,
{
}

/// Every valid id is the id of the line it names.
pub proof fn lemma_id_request_round_trip(id: u8)
    requires
        is_request_id(id),
    ensures
        DmaRequest::of_code(id).code() == id,
{
}

/// Number of DMA channels each of STM32G4's DMA1/DMA2 is taken to have; its
/// channel numbers run `1..=CHANNELS_PER_INSTANCE`.
pub const CHANNELS_PER_INSTANCE: u8 = 8;

/// `channel.channel` converted from the hardware's 1-based `DMAn_CHm`
/// numbering to a 0-based index. The channel number must be in
/// `1..=CHANNELS_PER_INSTANCE`.
pub fn zero_based_index(channel: DmaChannel) -> (index: usize)
    requires
        1 <= channel.channel <= CHANNELS_PER_INSTANCE,
    ensures
        index == channel.channel - 1,
{
    (channel.channel - 1) as usize
}

/// The request multiplexer's register index for `channel`: DMA1's channels
/// take indices `0..8`, DMA2's take `8..16` (real STM32G4 category 2
/// hardware follows the 2x8 layout of category 3 devices, not the 2x6 one
/// RM0440 documents for it). The channel number must be in
/// `1..=CHANNELS_PER_INSTANCE`.
pub fn dmamux_channel_index(channel: DmaChannel) -> (index: usize)
    requires
        1 <= channel.channel <= CHANNELS_PER_INSTANCE,
    ensures
        index == match channel.instance {
            DmaInstance::Stm32g4Dma1 => channel.channel - 1,
            DmaInstance::Stm32g4Dma2 => CHANNELS_PER_INSTANCE + channel.channel - 1,
        },
        index < 2 * CHANNELS_PER_INSTANCE,
{
    let index = zero_based_index(channel);
    match channel.instance {
        DmaInstance::Stm32g4Dma1 => index,
        DmaInstance::Stm32g4Dma2 => CHANNELS_PER_INSTANCE as usize + index,
    }
}

/// Distinct channels occupy distinct request-multiplexer registers.
pub proof fn lemma_dmamux_index_injective(a: DmaChannel, b: DmaChannel)
    requires
        1 <= a.channel <= CHANNELS_PER_INSTANCE,
        1 <= b.channel <= CHANNELS_PER_INSTANCE,
        dmamux_index_of(a) == dmamux_index_of(b),
    ensures
        a == b,
{
}

/// The request-multiplexer register index of `channel`.
pub open spec fn dmamux_index_of(channel: DmaChannel) -> int {
    match channel.instance {
        DmaInstance::Stm32g4Dma1 => channel.channel - 1,
        DmaInstance::Stm32g4Dma2 => CHANNELS_PER_INSTANCE + channel.channel - 1,
    }
}

/// The interface every DMA request-router driver implements: it only tracks
/// which [`DmaRequest`] feeds each [`DmaChannel`].
pub trait DmaTrait {
    /// The request `channel` was allocated to carry, if it was allocated.
    spec fn route(&self, channel: DmaChannel) -> Option<DmaRequest>;

    /// Routes `request` to `channel`: every transfer subsequently started on
    /// `channel` is triggered by `request`'s hardware signal (or, for
    /// [`DmaRequest::NoRequest`], only by software). A channel is allocated
    /// at most once.
    fn allocate(&mut self, channel: DmaChannel, request: DmaRequest)
        requires
            old(self).route(channel) is None,
        ensures
            forall|c: DmaChannel| #[trigger]
                final(self).route(c) == if c == channel {
                    Some(request)
                } else {
                    old(self).route(c)
                },
    ;

    /// The channel currently routed to carry `request`, if any;
    /// [`DmaRequest::NoRequest`] always maps to `None`.
    fn lookup_channel(&self, request: DmaRequest) -> (found: Option<DmaChannel>)
        ensures
            request is NoRequest ==> found is None,
            found matches Some(c) ==> self.route(c) == Some(request),
            (found is None && !(request is NoRequest)) ==> forall|c: DmaChannel| #[trigger]
                self.route(c) != Some(request),
    ;
}


/// Every request line's id is its RM0440 Table 91 value, and each id names
/// back its own line: a channel routed to a request id is triggered by
/// exactly that peripheral's request signal.
pub proof fn law_request_ids_follow_rm0440_table_91()
    ensures
        DmaRequest::NoRequest.code() == 0,
        DmaRequest::of_code(0) == DmaRequest::NoRequest,
        DmaRequest::Stm32g4DmamuxReqGen0.code() == 1,
        DmaRequest::of_code(1) == DmaRequest::Stm32g4DmamuxReqGen0,
        DmaRequest::Stm32g4DmamuxReqGen1.code() == 2,
        DmaRequest::of_code(2) == DmaRequest::Stm32g4DmamuxReqGen1,
        DmaRequest::Stm32g4DmamuxReqGen2.code() == 3,
        DmaRequest::of_code(3) == DmaRequest::Stm32g4DmamuxReqGen2,
        DmaRequest::Stm32g4DmamuxReqGen3.code() == 4,
        DmaRequest::of_code(4) == DmaRequest::Stm32g4DmamuxReqGen3,
        DmaRequest::Stm32g4DmamuxReqAdc1.code() == 5,
        DmaRequest::of_code(5) == DmaRequest::Stm32g4DmamuxReqAdc1,
        DmaRequest::Stm32g4DmamuxReqDac1Ch1.code() == 6,
        DmaRequest::of_code(6) == DmaRequest::Stm32g4DmamuxReqDac1Ch1,
        DmaRequest::Stm32g4DmamuxReqDac1Ch2.code() == 7,
        DmaRequest::of_code(7) == DmaRequest::Stm32g4DmamuxReqDac1Ch2,
        DmaRequest::Stm32g4DmamuxReqTim6Up.code() == 8,
        DmaRequest::of_code(8) == DmaRequest::Stm32g4DmamuxReqTim6Up,
        DmaRequest::Stm32g4DmamuxReqTim7Up.code() == 9,
        DmaRequest::of_code(9) == DmaRequest::Stm32g4DmamuxReqTim7Up,
        DmaRequest::Stm32g4DmamuxReqSpi1Rx.code() == 10,
        DmaRequest::of_code(10) == DmaRequest::Stm32g4DmamuxReqSpi1Rx,
        DmaRequest::Stm32g4DmamuxReqSpi1Tx.code() == 11,
        DmaRequest::of_code(11) == DmaRequest::Stm32g4DmamuxReqSpi1Tx,
        DmaRequest::Stm32g4DmamuxReqSpi2Rx.code() == 12,
        DmaRequest::of_code(12) == DmaRequest::Stm32g4DmamuxReqSpi2Rx,
        DmaRequest::Stm32g4DmamuxReqSpi2Tx.code() == 13,
        DmaRequest::of_code(13) == DmaRequest::Stm32g4DmamuxReqSpi2Tx,
        DmaRequest::Stm32g4DmamuxReqSpi3Rx.code() == 14,
        DmaRequest::of_code(14) == DmaRequest::Stm32g4DmamuxReqSpi3Rx,
        DmaRequest::Stm32g4DmamuxReqSpi3Tx.code() == 15,
        DmaRequest::of_code(15) == DmaRequest::Stm32g4DmamuxReqSpi3Tx,
        DmaRequest::Stm32g4DmamuxReqI2c1Rx.code() == 16,
        DmaRequest::of_code(16) == DmaRequest::Stm32g4DmamuxReqI2c1Rx,
        DmaRequest::Stm32g4DmamuxReqI2c1Tx.code() == 17,
        DmaRequest::of_code(17) == DmaRequest::Stm32g4DmamuxReqI2c1Tx,
        DmaRequest::Stm32g4DmamuxReqI2c2Rx.code() == 18,
        DmaRequest::of_code(18) == DmaRequest::Stm32g4DmamuxReqI2c2Rx,
        DmaRequest::Stm32g4DmamuxReqI2c2Tx.code() == 19,
        DmaRequest::of_code(19) == DmaRequest::Stm32g4DmamuxReqI2c2Tx,
        DmaRequest::Stm32g4DmamuxReqI2c3Rx.code() == 20,
        DmaRequest::of_code(20) == DmaRequest::Stm32g4DmamuxReqI2c3Rx,
        DmaRequest::Stm32g4DmamuxReqI2c3Tx.code() == 21,
        DmaRequest::of_code(21) == DmaRequest::Stm32g4DmamuxReqI2c3Tx,
        DmaRequest::Stm32g4DmamuxReqI2c4Rx.code() == 22,
        DmaRequest::of_code(22) == DmaRequest::Stm32g4DmamuxReqI2c4Rx,
        DmaRequest::Stm32g4DmamuxReqI2c4Tx.code() == 23,
        DmaRequest::of_code(23) == DmaRequest::Stm32g4DmamuxReqI2c4Tx,
        DmaRequest::Stm32g4DmamuxReqUsart1Rx.code() == 24,
        DmaRequest::of_code(24) == DmaRequest::Stm32g4DmamuxReqUsart1Rx,
        DmaRequest::Stm32g4DmamuxReqUsart1Tx.code() == 25,
        DmaRequest::of_code(25) == DmaRequest::Stm32g4DmamuxReqUsart1Tx,
        DmaRequest::Stm32g4DmamuxReqUsart2Rx.code() == 26,
        DmaRequest::of_code(26) == DmaRequest::Stm32g4DmamuxReqUsart2Rx,
        DmaRequest::Stm32g4DmamuxReqUsart2Tx.code() == 27,
        DmaRequest::of_code(27) == DmaRequest::Stm32g4DmamuxReqUsart2Tx,
        DmaRequest::Stm32g4DmamuxReqUsart3Rx.code() == 28,
        DmaRequest::of_code(28) == DmaRequest::Stm32g4DmamuxReqUsart3Rx,
        DmaRequest::Stm32g4DmamuxReqUsart3Tx.code() == 29,
        DmaRequest::of_code(29) == DmaRequest::Stm32g4DmamuxReqUsart3Tx,
        DmaRequest::Stm32g4DmamuxReqUart4Rx.code() == 30,
        DmaRequest::of_code(30) == DmaRequest::Stm32g4DmamuxReqUart4Rx,
        DmaRequest::Stm32g4DmamuxReqUart4Tx.code() == 31,
        DmaRequest::of_code(31) == DmaRequest::Stm32g4DmamuxReqUart4Tx,
        DmaRequest::Stm32g4DmamuxReqUart5Rx.code() == 32,
        DmaRequest::of_code(32) == DmaRequest::Stm32g4DmamuxReqUart5Rx,
        DmaRequest::Stm32g4DmamuxReqUart5Tx.code() == 33,
        DmaRequest::of_code(33) == DmaRequest::Stm32g4DmamuxReqUart5Tx,
        DmaRequest::Stm32g4DmamuxReqLpuart1Rx.code() == 34,
        DmaRequest::of_code(34) == DmaRequest::Stm32g4DmamuxReqLpuart1Rx,
        DmaRequest::Stm32g4DmamuxReqLpuart1Tx.code() == 35,
        DmaRequest::of_code(35) == DmaRequest::Stm32g4DmamuxReqLpuart1Tx,
        DmaRequest::Stm32g4DmamuxReqAdc2.code() == 36,
        DmaRequest::of_code(36) == DmaRequest::Stm32g4DmamuxReqAdc2,
        DmaRequest::Stm32g4DmamuxReqAdc3.code() == 37,
        DmaRequest::of_code(37) == DmaRequest::Stm32g4DmamuxReqAdc3,
        DmaRequest::Stm32g4DmamuxReqAdc4.code() == 38,
        DmaRequest::of_code(38) == DmaRequest::Stm32g4DmamuxReqAdc4,
        DmaRequest::Stm32g4DmamuxReqAdc5.code() == 39,
        DmaRequest::of_code(39) == DmaRequest::Stm32g4DmamuxReqAdc5,
        DmaRequest::Stm32g4DmamuxReqDac2Ch1.code() == 41,
        DmaRequest::of_code(41) == DmaRequest::Stm32g4DmamuxReqDac2Ch1,
        DmaRequest::Stm32g4DmamuxReqTim1Ch1.code() == 42,
        DmaRequest::of_code(42) == DmaRequest::Stm32g4DmamuxReqTim1Ch1,
        DmaRequest::Stm32g4DmamuxReqTim1Ch2.code() == 43,
        DmaRequest::of_code(43) == DmaRequest::Stm32g4DmamuxReqTim1Ch2,
        DmaRequest::Stm32g4DmamuxReqTim1Ch3.code() == 44,
        DmaRequest::of_code(44) == DmaRequest::Stm32g4DmamuxReqTim1Ch3,
        DmaRequest::Stm32g4DmamuxReqTim1Ch4.code() == 45,
        DmaRequest::of_code(45) == DmaRequest::Stm32g4DmamuxReqTim1Ch4,
        DmaRequest::Stm32g4DmamuxReqTim1Up.code() == 46,
        DmaRequest::of_code(46) == DmaRequest::Stm32g4DmamuxReqTim1Up,
        DmaRequest::Stm32g4DmamuxReqTim1Trig.code() == 47,
        DmaRequest::of_code(47) == DmaRequest::Stm32g4DmamuxReqTim1Trig,
        DmaRequest::Stm32g4DmamuxReqTim1Com.code() == 48,
        DmaRequest::of_code(48) == DmaRequest::Stm32g4DmamuxReqTim1Com,
        DmaRequest::Stm32g4DmamuxReqTim8Ch1.code() == 49,
        DmaRequest::of_code(49) == DmaRequest::Stm32g4DmamuxReqTim8Ch1,
        DmaRequest::Stm32g4DmamuxReqTim8Ch2.code() == 50,
        DmaRequest::of_code(50) == DmaRequest::Stm32g4DmamuxReqTim8Ch2,
        DmaRequest::Stm32g4DmamuxReqTim8Ch3.code() == 51,
        DmaRequest::of_code(51) == DmaRequest::Stm32g4DmamuxReqTim8Ch3,
        DmaRequest::Stm32g4DmamuxReqTim8Ch4.code() == 52,
        DmaRequest::of_code(52) == DmaRequest::Stm32g4DmamuxReqTim8Ch4,
        DmaRequest::Stm32g4DmamuxReqTim8Up.code() == 53,
        DmaRequest::of_code(53) == DmaRequest::Stm32g4DmamuxReqTim8Up,
        DmaRequest::Stm32g4DmamuxReqTim8Trig.code() == 54,
        DmaRequest::of_code(54) == DmaRequest::Stm32g4DmamuxReqTim8Trig,
        DmaRequest::Stm32g4DmamuxReqTim8Com.code() == 55,
        DmaRequest::of_code(55) == DmaRequest::Stm32g4DmamuxReqTim8Com,
        DmaRequest::Stm32g4DmamuxReqTim2Ch1.code() == 56,
        DmaRequest::of_code(56) == DmaRequest::Stm32g4DmamuxReqTim2Ch1,
        DmaRequest::Stm32g4DmamuxReqTim2Ch2.code() == 57,
        DmaRequest::of_code(57) == DmaRequest::Stm32g4DmamuxReqTim2Ch2,
        DmaRequest::Stm32g4DmamuxReqTim2Ch3.code() == 58,
        DmaRequest::of_code(58) == DmaRequest::Stm32g4DmamuxReqTim2Ch3,
        DmaRequest::Stm32g4DmamuxReqTim2Ch4.code() == 59,
        DmaRequest::of_code(59) == DmaRequest::Stm32g4DmamuxReqTim2Ch4,
        DmaRequest::Stm32g4DmamuxReqTim2Up.code() == 60,
        DmaRequest::of_code(60) == DmaRequest::Stm32g4DmamuxReqTim2Up,
        DmaRequest::Stm32g4DmamuxReqTim3Ch1.code() == 61,
        DmaRequest::of_code(61) == DmaRequest::Stm32g4DmamuxReqTim3Ch1,
        DmaRequest::Stm32g4DmamuxReqTim3Ch2.code() == 62,
        DmaRequest::of_code(62) == DmaRequest::Stm32g4DmamuxReqTim3Ch2,
        DmaRequest::Stm32g4DmamuxReqTim3Ch3.code() == 63,
        DmaRequest::of_code(63) == DmaRequest::Stm32g4DmamuxReqTim3Ch3,
        DmaRequest::Stm32g4DmamuxReqTim3Ch4.code() == 64,
        DmaRequest::of_code(64) == DmaRequest::Stm32g4DmamuxReqTim3Ch4,
        DmaRequest::Stm32g4DmamuxReqTim3Up.code() == 65,
        DmaRequest::of_code(65) == DmaRequest::Stm32g4DmamuxReqTim3Up,
        DmaRequest::Stm32g4DmamuxReqTim3Trig.code() == 66,
        DmaRequest::of_code(66) == DmaRequest::Stm32g4DmamuxReqTim3Trig,
        DmaRequest::Stm32g4DmamuxReqTim4Ch1.code() == 67,
        DmaRequest::of_code(67) == DmaRequest::Stm32g4DmamuxReqTim4Ch1,
        DmaRequest::Stm32g4DmamuxReqTim4Ch2.code() == 68,
        DmaRequest::of_code(68) == DmaRequest::Stm32g4DmamuxReqTim4Ch2,
        DmaRequest::Stm32g4DmamuxReqTim4Ch3.code() == 69,
        DmaRequest::of_code(69) == DmaRequest::Stm32g4DmamuxReqTim4Ch3,
        DmaRequest::Stm32g4DmamuxReqTim4Ch4.code() == 70,
        DmaRequest::of_code(70) == DmaRequest::Stm32g4DmamuxReqTim4Ch4,
        DmaRequest::Stm32g4DmamuxReqTim4Up.code() == 71,
        DmaRequest::of_code(71) == DmaRequest::Stm32g4DmamuxReqTim4Up,
        DmaRequest::Stm32g4DmamuxReqTim5Ch1.code() == 72,
        DmaRequest::of_code(72) == DmaRequest::Stm32g4DmamuxReqTim5Ch1,
        DmaRequest::Stm32g4DmamuxReqTim5Ch2.code() == 73,
        DmaRequest::of_code(73) == DmaRequest::Stm32g4DmamuxReqTim5Ch2,
        DmaRequest::Stm32g4DmamuxReqTim5Ch3.code() == 74,
        DmaRequest::of_code(74) == DmaRequest::Stm32g4DmamuxReqTim5Ch3,
        DmaRequest::Stm32g4DmamuxReqTim5Ch4.code() == 75,
        DmaRequest::of_code(75) == DmaRequest::Stm32g4DmamuxReqTim5Ch4,
        DmaRequest::Stm32g4DmamuxReqTim5Up.code() == 76,
        DmaRequest::of_code(76) == DmaRequest::Stm32g4DmamuxReqTim5Up,
        DmaRequest::Stm32g4DmamuxReqTim5Trig.code() == 77,
        DmaRequest::of_code(77) == DmaRequest::Stm32g4DmamuxReqTim5Trig,
        DmaRequest::Stm32g4DmamuxReqTim15Ch1.code() == 78,
        DmaRequest::of_code(78) == DmaRequest::Stm32g4DmamuxReqTim15Ch1,
        DmaRequest::Stm32g4DmamuxReqTim15Up.code() == 79,
        DmaRequest::of_code(79) == DmaRequest::Stm32g4DmamuxReqTim15Up,
        DmaRequest::Stm32g4DmamuxReqTim15Trig.code() == 80,
        DmaRequest::of_code(80) == DmaRequest::Stm32g4DmamuxReqTim15Trig,
        DmaRequest::Stm32g4DmamuxReqTim15Com.code() == 81,
        DmaRequest::of_code(81) == DmaRequest::Stm32g4DmamuxReqTim15Com,
        DmaRequest::Stm32g4DmamuxReqTim16Ch1.code() == 82,
        DmaRequest::of_code(82) == DmaRequest::Stm32g4DmamuxReqTim16Ch1,
        DmaRequest::Stm32g4DmamuxReqTim16Up.code() == 83,
        DmaRequest::of_code(83) == DmaRequest::Stm32g4DmamuxReqTim16Up,
        DmaRequest::Stm32g4DmamuxReqTim17Ch1.code() == 84,
        DmaRequest::of_code(84) == DmaRequest::Stm32g4DmamuxReqTim17Ch1,
        DmaRequest::Stm32g4DmamuxReqTim17Up.code() == 85,
        DmaRequest::of_code(85) == DmaRequest::Stm32g4DmamuxReqTim17Up,
        DmaRequest::Stm32g4DmamuxReqTim20Ch1.code() == 86,
        DmaRequest::of_code(86) == DmaRequest::Stm32g4DmamuxReqTim20Ch1,
        DmaRequest::Stm32g4DmamuxReqTim20Ch2.code() == 87,
        DmaRequest::of_code(87) == DmaRequest::Stm32g4DmamuxReqTim20Ch2,
        DmaRequest::Stm32g4DmamuxReqTim20Ch3.code() == 88,
        DmaRequest::of_code(88) == DmaRequest::Stm32g4DmamuxReqTim20Ch3,
        DmaRequest::Stm32g4DmamuxReqTim20Ch4.code() == 89,
        DmaRequest::of_code(89) == DmaRequest::Stm32g4DmamuxReqTim20Ch4,
        DmaRequest::Stm32g4DmamuxReqTim20Up.code() == 90,
        DmaRequest::of_code(90) == DmaRequest::Stm32g4DmamuxReqTim20Up,
        DmaRequest::Stm32g4DmamuxReqAesIn.code() == 91,
        DmaRequest::of_code(91) == DmaRequest::Stm32g4DmamuxReqAesIn,
        DmaRequest::Stm32g4DmamuxReqAesOut.code() == 92,
        DmaRequest::of_code(92) == DmaRequest::Stm32g4DmamuxReqAesOut,
        DmaRequest::Stm32g4DmamuxReqTim20Trig.code() == 93,
        DmaRequest::of_code(93) == DmaRequest::Stm32g4DmamuxReqTim20Trig,
        DmaRequest::Stm32g4DmamuxReqTim20Com.code() == 94,
        DmaRequest::of_code(94) == DmaRequest::Stm32g4DmamuxReqTim20Com,
        DmaRequest::Stm32g4DmamuxReqHrtim1M.code() == 95,
        DmaRequest::of_code(95) == DmaRequest::Stm32g4DmamuxReqHrtim1M,
        DmaRequest::Stm32g4DmamuxReqHrtim1A.code() == 96,
        DmaRequest::of_code(96) == DmaRequest::Stm32g4DmamuxReqHrtim1A,
        DmaRequest::Stm32g4DmamuxReqHrtim1B.code() == 97,
        DmaRequest::of_code(97) == DmaRequest::Stm32g4DmamuxReqHrtim1B,
        DmaRequest::Stm32g4DmamuxReqHrtim1C.code() == 98,
        DmaRequest::of_code(98) == DmaRequest::Stm32g4DmamuxReqHrtim1C,
        DmaRequest::Stm32g4DmamuxReqHrtim1D.code() == 99,
        DmaRequest::of_code(99) == DmaRequest::Stm32g4DmamuxReqHrtim1D,
        DmaRequest::Stm32g4DmamuxReqHrtim1E.code() == 100,
        DmaRequest::of_code(100) == DmaRequest::Stm32g4DmamuxReqHrtim1E,
        DmaRequest::Stm32g4DmamuxReqHrtim1F.code() == 101,
        DmaRequest::of_code(101) == DmaRequest::Stm32g4DmamuxReqHrtim1F,
        DmaRequest::Stm32g4DmamuxReqDac3Ch1.code() == 102,
        DmaRequest::of_code(102) == DmaRequest::Stm32g4DmamuxReqDac3Ch1,
        DmaRequest::Stm32g4DmamuxReqDac3Ch2.code() == 103,
        DmaRequest::of_code(103) == DmaRequest::Stm32g4DmamuxReqDac3Ch2,
        DmaRequest::Stm32g4DmamuxReqDac4Ch1.code() == 104,
        DmaRequest::of_code(104) == DmaRequest::Stm32g4DmamuxReqDac4Ch1,
        DmaRequest::Stm32g4DmamuxReqDac4Ch2.code() == 105,
        DmaRequest::of_code(105) == DmaRequest::Stm32g4DmamuxReqDac4Ch2,
        DmaRequest::Stm32g4DmamuxReqSpi4Rx.code() == 106,
        DmaRequest::of_code(106) == DmaRequest::Stm32g4DmamuxReqSpi4Rx,
        DmaRequest::Stm32g4DmamuxReqSpi4Tx.code() == 107,
        DmaRequest::of_code(107) == DmaRequest::Stm32g4DmamuxReqSpi4Tx,
        DmaRequest::Stm32g4DmamuxReqSai1A.code() == 108,
        DmaRequest::of_code(108) == DmaRequest::Stm32g4DmamuxReqSai1A,
        DmaRequest::Stm32g4DmamuxReqSai1B.code() == 109,
        DmaRequest::of_code(109) == DmaRequest::Stm32g4DmamuxReqSai1B,
        DmaRequest::Stm32g4DmamuxReqFmacRead.code() == 110,
        DmaRequest::of_code(110) == DmaRequest::Stm32g4DmamuxReqFmacRead,
        DmaRequest::Stm32g4DmamuxReqFmacWrite.code() == 111,
        DmaRequest::of_code(111) == DmaRequest::Stm32g4DmamuxReqFmacWrite,
        DmaRequest::Stm32g4DmamuxReqCordicRead.code() == 112,
        DmaRequest::of_code(112) == DmaRequest::Stm32g4DmamuxReqCordicRead,
        DmaRequest::Stm32g4DmamuxReqCordicWrite.code() == 113,
        DmaRequest::of_code(113) == DmaRequest::Stm32g4DmamuxReqCordicWrite,
        DmaRequest::Stm32g4DmamuxReqUcpd1Rx.code() == 114,
        DmaRequest::of_code(114) == DmaRequest::Stm32g4DmamuxReqUcpd1Rx,
        DmaRequest::Stm32g4DmamuxReqUcpd1Tx.code() == 115,
        DmaRequest::of_code(115) == DmaRequest::Stm32g4DmamuxReqUcpd1Tx,
{
}

} // verus!
