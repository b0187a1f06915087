# nes

The core of a Nintendo Entertainment System emulator, verified with Verus.

- `src/cpu.rs`: the 6502 CPU (`Cpu`, `Registers`) and the opcode dispatch.
  - `cpu/status.rs`: the status register and its flags.
  - `cpu/addressing.rs`: the addressing modes.
  - `cpu/instructions.rs`: every instruction, each with its effect as a specification.
  - `cpu/isa.rs`: the opcode table and the effect of one whole instruction.
- `src/bus.rs`: the `Bus` and `PpuBus` traits and `NesBus` (2 KiB of RAM, an NROM-128
  cartridge, the OAM DMA registers and the controller ports).
- `src/cartridge.rs`: iNES ROM images.
- `src/ppu.rs`, `src/ppu/registers.rs`: pattern-table decoding and the PPU registers.
- `app/`: an SDL3 window that shows the pattern tables of a ROM.
