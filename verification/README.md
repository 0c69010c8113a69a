# rtos

A verified model of a minimal round-robin real-time kernel for the Cortex-M4
(STM32F303): the peripheral drivers, the kernel's exception handlers and its
process table, proved with Verus.

- `src/mmio.rs`: the register space as a bank of register values plus the
  journal of writes, in order.
- `src/platform.rs`: addresses, offsets and bit positions.
- `src/gpio.rs`, `src/tim2.rs`, `src/tim3.rs`, `src/uart.rs`,
  `src/systick.rs`, `src/cp.rs`, `src/dp.rs`: drivers, each operation stated
  as the exact register writes it issues.
- `src/sched.rs`: the process table, round-robin selection, sleeping and
  waking, and the laws that connect them.
- `src/kernel.rs`: reset configuration and the SysTick, PendSV, SVCall and
  timer 3 handlers.
- `src/svc.rs`, `src/sys.rs`, `src/user.rs`: the system call interface and
  the computations of the user tasks.
- `app/`: the firmware glue: it loads the device registers into a bank, runs
  the library and issues the journaled writes; assembly routines, the
  console's polling loop and the user tasks' endless loops live there.
