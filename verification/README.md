# emulator_core

The processor core of a Game Boy emulator, verified with Verus.

- `src/cpu/` — the processor: registers and flags (`registers/`), the
  64 KiB memory (`memory_bus.rs`), the instruction set (`instruction.rs`),
  the arithmetic and logic rules (`alu.rs`), and `mod.rs` with the decoder,
  the instruction semantics (`spec_execute`) and the fetch-decode-execute
  step, each executable function proved against its specification.
- `src/frame.rs` — the test pattern drawn in the window.
- `src/rom_loader.rs` — the load errors and the check of a ROM's contents.
- `app/main.rs` — the program: reads the ROM file, opens the window and
  drives the processor at a fixed time step.
