# RustNESs

A NES emulator. The emulator core is a library whose behaviour is stated in
`requires`/`ensures` contracts and proved with Verus; a small iced application
draws the screen and reads the keyboard.

Run it with a ROM file:

```
cargo run --release <path-to-ROM-file>
```

| Button | Key |
| ------ | --- |
| A      | N   |
| B      | M   |
| Start  | J   |
| Select | H   |
| Up     | W   |
| Left   | A   |
| Down   | S   |
| Right  | D   |

Space runs one CPU instruction, 5 runs fifty, F runs one frame, P cycles the
palette of the pattern-table view, Enter starts and pauses the emulation.

## Layout

- `src/utils`: bit fields and hexadecimal text.
- `src/ram.rs`, `src/controller.rs`: the 2 KiB RAM (mirrored up to 0x1FFF) and
  the joypad ports at 0x4016/0x4017.
- `src/mapper.rs`, `src/cartridge.rs`: mapper 0 and the iNES loader.
- `src/ben2C02`: the PPU: registers, memory and mirroring, the
  cycle-by-cycle rendering of scanlines and sprites, the palette; `laws.rs`
  holds its mirroring and read-after-write laws.
- `src/bus.rs`: the CPU bus and what sits on it.
- `src/ben6502`: the 6502 CPU, modelled by a spec state machine (`CpuView`)
  that the executable code is proved against; `laws.rs` holds the stack laws
  (PHA/PLA, JSR/RTS, NMI/RTI), the status bit that stays set and the cycle
  count of an instruction, and `timing.rs` proves that no CPU bus access
  moves the PPU in its frame.
- `src/nes.rs`: the console (three PPU cycles for each CPU cycle, NMI
  hand-over), whole instructions and whole frames with their termination
  proofs, the joypad keys and the memory windows.
- `app/main.rs`: the iced window and the ROM file reading.
