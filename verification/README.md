# rustyness

An emulator of the Nintendo Entertainment System written in Verus: each
function of the library carries a contract, and Verus proves the code
against it.

## Layout

- `src/` is the verified library.
  - `cpu_bus.rs`: the CPU's view of the machine (`CpuBus`), and a flat
    64 KiB memory that records every access, for testing the CPU alone.
  - `cpu.rs`, `addressing_modes.rs`, `opcodes.rs`: the 6502, with its
    opcode table, addressing modes and instructions, cycle by cycle in
    their bus accesses. `cpu_laws.rs` holds the laws that relate
    instructions (PLA undoes PHA, RTS returns from JSR, ...).
  - `cartridge.rs`, `mappers.rs`: iNES images, NROM and UxROM.
  - `ppu.rs`, `ppu_registers.rs`, `oam.rs`, `screen.rs`: the picture
    processor, its registers and sprite memory, and the pictures it draws.
    `ppu_laws.rs` holds the laws of its memory map.
  - `bus.rs`, `controller.rs`, `nes.rs`: the CPU bus, the controllers and
    the whole console, with its clock. `stepping.rs` runs the clock a frame
    or an instruction at a time.
  - `text.rs`, `disassembly.rs`, `debug_text.rs`: the texts of the
    debugger: instruction listing, trace line, memory view, registers.
  - `single_step.rs`: machine states in the form of the single-step CPU
    tests.
- `tests/`: the single-step CPU tests (one instruction each) and tests of
  the console as a whole.
- `app/`: the window (raylib): loads a cartridge image from disk, runs the
  console at 60 frames per second and draws the picture and the panels.
