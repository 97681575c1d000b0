# neural_space

The decision logic of a deterministic autonomic nervous system for a
hypersonic vehicle, written in Verus and proved against its contracts.

- `src/` — the verified library. Every physical quantity is an `i64` count
  of millionths of its SI unit (`units::SCALE`), so every comparison,
  vote and clamp is exact; divisions round toward zero.
  - `afferent` — sensor samples, the DMA bus record, pressure, strain and
    thermal checks.
  - `central` — vehicle state, control output, attitude correction and the
    thrust profile.
  - `efferent` — the bounded actuator command bus, actuators and control
    surfaces.
  - `reflex` — 2-out-of-3 voting, severity mapping, the reflex check, the
    fault log (a 64-entry circular buffer) and the ejection sequence.
- `app/` — plain Rust around the library: conversion of floating-point
  sensor values to fixed point, floating-point vector math and aerodynamics
  (with `libm`), and hardware access (cycle counter, interrupt controller,
  actuator registers).
- `tests/` — tests of the library.
