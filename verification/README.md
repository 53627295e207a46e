# pyrion

The verified core of a field-oriented control (FOC) firmware for BLDC motors,
written in Verus. The contracts of the library state what each function
computes; Verus proves the code against them.

- `src/` — the library:
  - angles and encoders: `angle`, `units`, `as5600`, `electrical_angle`
  - transforms: `clarke` (Q15), `clarke_fixed`, `park_transformation` (`I32F32`),
    `park` (`I16F16`), `drive` (currents to d/q, d/q to phase voltages),
    `controller` (the open-loop drive)
  - motor control: `state`, `state_machine`, `motor_driver` (PWM duty and dead
    time), `current` (current-sensor zero levels), `shaft`,
    `shaft_calibration`, `angle_calibration` (pole-pair count and offset)
  - serial console: `serial::{parser, decoder, line_reader, command_chain, errors}`,
    `command`
  - ADC register planning: `adc::{config, injected, regular, trigger_edge}`
  - `fixed_point`: the `fixed` crate's operations, with their contracts
- `tests/` — tests on concrete values.
- `app/` — a host console that reads command lines from standard input and
  drives a simulated motor through the library, and the floating-point helpers.
