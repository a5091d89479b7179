//! Board resources: how a board's clock tree is driven, and the chip's
//! timer and ADC ownership tokens, with which driver instance each names.
use vstd::prelude::*;
use crate::adc::AdcInstance;
use crate::peri::{Peri, PeripheralType};
use crate::pwm::PwmTimer;
use crate::quadrature::QuadratureTimer;

verus! {

/// How a board clocks its MCU: always by scaling an external oscillator or
/// crystal up to the MCU frequency.
pub struct ClockConfiguration {
    pub mcu_frequency: u32,
    pub oscillator_frequency: u32,
    /// Whether the timepiece is a crystal, driven by the MCU's own
    /// oscillator amplifier across its input and output pins, rather than
    /// an active oscillator module feeding the input pin alone.
    pub timepiece_is_crystal: bool,
}

/// A timer token that can decode a quadrature encoder, and which
/// [`QuadratureTimer`] it names.
pub trait QuadratureCapableTimer {
    const TIMER: QuadratureTimer;
}

/// An ADC token the ADC driver supports, and which [`AdcInstance`] it names.
pub trait AdcCapableInstance {
    const INSTANCE: AdcInstance;
}

/// A timer token that can drive the PWM, and which [`PwmTimer`] it names.
pub trait PwmCapableTimer {
    const TIMER: PwmTimer;
}

/// Claims `timer`, consuming its token, and names the quadrature timer it
/// is.
pub fn claim_quadrature_timer<T: QuadratureCapableTimer + PeripheralType>(
    timer: Peri<'static, T>,
) -> (claimed: QuadratureTimer)
    ensures
        claimed == T::TIMER,
{
    T::TIMER
}

/// Claims `adc`, consuming its token, and names the ADC instance it is.
pub fn claim_adc<T: AdcCapableInstance + PeripheralType>(adc: Peri<'static, T>) -> (claimed:
    AdcInstance)
    ensures
        claimed == T::INSTANCE,
{
    T::INSTANCE
}

/// Claims `timer`, consuming its token, and names the PWM timer it is.
pub fn claim_pwm_timer<T: PwmCapableTimer + PeripheralType>(timer: Peri<'static, T>) -> (claimed:
    PwmTimer)
    ensures
        claimed == T::TIMER,
{
    T::TIMER
}

/// The TIM1 token.
#[derive(Debug, Clone, Copy)]
pub struct Tim1;

/// The TIM3 token.
#[derive(Debug, Clone, Copy)]
pub struct Tim3;

/// The TIM4 token.
#[derive(Debug, Clone, Copy)]
pub struct Tim4;

/// The TIM8 token.
#[derive(Debug, Clone, Copy)]
pub struct Tim8;

/// The ADC1 token.
#[derive(Debug, Clone, Copy)]
pub struct Adc1;

/// The ADC2 token.
#[derive(Debug, Clone, Copy)]
pub struct Adc2;

impl PeripheralType for Tim1 {

}

impl PeripheralType for Tim3 {

}

impl PeripheralType for Tim4 {

}

impl PeripheralType for Tim8 {

}

impl PeripheralType for Adc1 {

}

impl PeripheralType for Adc2 {

}

impl QuadratureCapableTimer for Tim1 {
    const TIMER: QuadratureTimer = QuadratureTimer::Stm32g4Tim1;
}

impl QuadratureCapableTimer for Tim3 {
    const TIMER: QuadratureTimer = QuadratureTimer::Stm32g4Tim3;
}

impl QuadratureCapableTimer for Tim4 {
    const TIMER: QuadratureTimer = QuadratureTimer::Stm32g4Tim4;
}

impl QuadratureCapableTimer for Tim8 {
    const TIMER: QuadratureTimer = QuadratureTimer::Stm32g4Tim8;
}

impl AdcCapableInstance for Adc1 {
    const INSTANCE: AdcInstance = AdcInstance::Stm32g4Adc1;
}

impl AdcCapableInstance for Adc2 {
    const INSTANCE: AdcInstance = AdcInstance::Stm32g4Adc2;
}

impl PwmCapableTimer for Tim1 {
    const TIMER: PwmTimer = PwmTimer::Stm32g4Tim1;
}

impl PwmCapableTimer for Tim8 {
    const TIMER: PwmTimer = PwmTimer::Stm32g4Tim8;
}

/// The driver instance each of the chip's tokens names.
pub proof fn lemma_token_names()
    ensures
        <Tim1 as QuadratureCapableTimer>::TIMER == QuadratureTimer::Stm32g4Tim1,
        <Tim3 as QuadratureCapableTimer>::TIMER == QuadratureTimer::Stm32g4Tim3,
        <Tim4 as QuadratureCapableTimer>::TIMER == QuadratureTimer::Stm32g4Tim4,
        <Tim8 as QuadratureCapableTimer>::TIMER == QuadratureTimer::Stm32g4Tim8,
        <Adc1 as AdcCapableInstance>::INSTANCE == AdcInstance::Stm32g4Adc1,
        <Adc2 as AdcCapableInstance>::INSTANCE == AdcInstance::Stm32g4Adc2,
        <Tim1 as PwmCapableTimer>::TIMER == PwmTimer::Stm32g4Tim1,
        <Tim8 as PwmCapableTimer>::TIMER == PwmTimer::Stm32g4Tim8,
{
}


/// Hands back a simulated driver together with the test's handle onto the
/// same simulated peripheral, as a simulated driver's constructor pairs
/// them: board bring-up code splits the pair the same way whatever the
/// backend.
pub fn split_off_fake<T, F>(pair: (T, F)) -> (split: (T, F))
    ensures
        split == pair,
{
    pair
}

} // verus!
