# rust_embedded

Verified building blocks of a motor-controller firmware for the
B-G431B-ESC1 board (STM32G431), written in Verus.

- `src/` is the verified library: fixed-point durations, uptimes and unit
  intervals; the 64-bit divider and the tick-to-time conversion; the
  debouncer and the DS402 states; the hardware-agnostic peripheral API
  (GPIO, clock, DMA, ADC, PWM, quadrature encoder, math coprocessor) with
  the register arithmetic it needs; simulated peripherals and the callback
  registry that drives simulated time; the board's bring-up and pin map;
  the PLL divider search; the STM32G4 ADC and PWM register setup; the
  blinky firmware's blink; and the
  motor-control application: its bring-up of the converters and drivers,
  the main-loop state machine, and the current loop's decisions around
  the field-oriented control. Every function carries a contract, and the laws that
  relate functions are stated and proved as `law_*` proof functions.
- `tests/` runs the library on concrete values.
- `app/` is the host-side program around it: the blinky firmware and the
  motor-control main loop on the simulated board, with the floating-point
  parts (low-pass filter, field-oriented control, the simulated math
  coprocessor, float conversions) that the library does not hold.
