# boya_core

The core of a Game Boy Advance emulator, written in Verus: the ARM7TDMI
processor, the system bus with its I/O registers, and the sound FIFOs.
Every public function carries a contract over a mathematical model of the
state it works on, and Verus proves the code against it; the laws that
span several functions are public proof functions.

Layout of `src/`:

- `arm7tdmi/` — the processor: register file and banks (`bank.rs`), status
  register (`psr.rs`), pipeline and exceptions (`pipeline.rs`), the shared
  ALU, shift and transfer operations (`ops.rs`, `isa.rs`), the ARM and THUMB
  instruction classes with their decoders, executors and listings (`arm/`,
  `thumb/`), and the laws that span several functions (`properties.rs`).
  `CpuView` is the model of the processor; `spec_step` says what one step does.
- `bus/` — the memory map (`mod.rs`, `memory.rs`), wait states and cycle
  counting (`cycles.rs`, `types.rs`), the I/O registers (`registers/`), DMA,
  timers, keypad and interrupts, the register table of the debugger
  (`debug/`), and the bus laws (`properties.rs`).
- `apu/` — sound control registers and the two DMA sound FIFOs.
- `utils/` — bit fields, fixed-capacity queues and number formatting.

`tests/` runs the processor on hand-assembled programs and checks the laws on
concrete values.
