# chip8

A CHIP-8 emulator whose processor is verified with Verus.

- `src/cpu.rs`: the processor state `CPU`, its mathematical view `CpuState`,
  construction, reset, font loading, instruction fetch, timers and the
  emulator's own controls.
- `src/instruction.rs`: instruction words and their decoding.
- `src/semantics.rs`: what each instruction does (`next_state`), when it stays
  within the machine (`safe_to_execute`), and what the emulation loop does next
  (`Outcome`).
- `src/execute.rs`, `src/draw.rs`: the executable instructions, proved against
  `semantics.rs`.
- `src/screen.rs`: how a screen cell is laid out and shaded on the host window.
- `src/laws.rs`: properties of the instruction set, proved.
- `app/main.rs`: the program around the library: ROM loading, the SDL window,
  keyboard, 60 Hz clock and pauses.
