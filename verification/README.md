# wataboy

A Game Boy (DMG) emulator core whose behaviour is stated in contracts and
proved with Verus.

- `src/interpreter/cpu*`: the SM83 CPU. `cpu/opcodes.rs` holds the opcode
  table (decoding proved to invert the encoding), `cpu/isa.rs` states what
  every instruction does to a mathematical model of the CPU and how many
  M-cycles it takes, and `cpu.rs` with its submodules executes instructions
  and serves interrupts against that model.
- `src/interpreter/bus.rs`: 64 KiB of memory, the T-cycle clock, and a
  small boot program mapped over 0x0000..0x0100 at power-on. It sets up the
  stack pointer and the registers, then writes the BANK register (0xFF50),
  which unmaps it and hands over to the cartridge at 0x0100.
- `src/interpreter/mbc*`: the cartridge bank controllers (MBC1, MBC2, MBC3
  with its real-time clock, MBC5) and the boot ROM mount.
- `src/interpreter/dma.rs`: OAM DMA timing.
- `src/ppu*`: the pixel processing unit, dot by dot: OAM scan, the
  background and object fetchers, palettes, STAT and LY.
- `src/interpreter/ppu*`: the background fetcher over video RAM.
- `src/jit*`: the parts of a recompiler that do not emit code: tracing a
  block of SM83 instructions (where it ends, what it costs in M-cycles),
  register locals, checkpoints and cache keys. No WebAssembly is generated.
- `src/app_state.rs`: turning the LCD's greyscale values into RGBA pixels.
- `app/main.rs`: a headless runner that loads a ROM and runs it frame by
  frame, stopping at `LD B, B`.

The tests in `tests/` run the library on concrete programs and memory maps.
