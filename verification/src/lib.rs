//! Fixed-point time and interval arithmetic, divider and tick-conversion
//! helpers, and the hardware-agnostic peripheral API of a motor-controller
//! firmware, with simulated peripheral backends for host-side testing; the
//! B-G431B-ESC1 board's bring-up, the STM32G4 PLL divider search, and the
//! motor-control application's main-loop state machine.
use vstd::prelude::*;

pub mod adc;
pub mod blinky;
pub mod callback_registry;
pub mod clock;
pub mod debounce;
pub mod ds402;
pub mod dma;
pub mod duration;
pub mod esc1_discovery;
pub mod duration_from_ticks;
pub mod fake_adc;
pub mod fake_clock;
pub mod fake_dma;
pub mod fake_gpio;
pub mod fake_pwm;
pub mod fake_quadrature;
pub mod gpio;
pub mod i64_divider;
pub mod math_coprocessor;
pub mod motor_control;
pub mod peri;
pub mod pll;
pub mod pwm;
pub mod quadrature;
pub mod resources;
pub mod stm32g4_adc;
pub mod stm32g4_pwm;
pub mod unit_interval;
pub mod uptime;

verus! {

} // verus!
