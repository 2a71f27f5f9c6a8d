# embassy-qemu-riscv

A HAL for the QEMU RISC-V virt machine with socket-backed peripherals (16550A UART,
I2C controller and target, GPIO, eSPI), built in two layers.

- `src/` is the verified core, checked by Verus. The drivers' decisions are functions
  of the register values they are given: which values to write back, what to report,
  whether to keep waiting, and the step of a multi-step transfer that comes next. Its
  contracts state these functions exactly, over the bit-level specifications in
  `src/pac`; proof functions state the laws that span several calls (an event the interrupt handler records reaches its waiter, the framing
  of an I2C transaction, reading back what was written, ...).
- `app/` is ordinary Rust around the core: the loops that perform those steps, volatile
  register accesses, the PLIC, interrupt binding, wakers, the ring buffer of the
  buffered UART (whose API is `unsafe`) and the `embedded-hal`, `embedded-hal-async`,
  `embedded-io(-async)` and `embedded-mcu-hal` trait implementations.
- `tests/` runs the core on concrete register values.
