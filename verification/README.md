# rboy

A Game Boy (Color) emulator core whose behaviour is stated in Verus contracts and proved.

## Layout

- `src/` — the verified library.
  - `register.rs`, `isa.rs`, `cpu.rs`, `cpu_cycle.rs`: the processor. `isa.rs` holds the
    mathematical model of the instruction set (ALU results, flags, timings); `CPU::call`
    is proved to execute every implemented opcode as `CPU::op_post` says, and
    `CPU::do_cycle` to step as `CPU::do_cycle_post` says (interrupts, HALT, DI/EI).
  - `mmu.rs`: the memory map, OAM DMA and VRAM DMA, the boot values, and the devices' clock.
  - `gpu.rs`, `render.rs`: video memory, the LCD registers, palettes, the line renderer
    (background, window, sprites) and the mode/line timing.
  - `timer.rs`, `keypad.rs`, `serial.rs`, `sound.rs`: the other devices.
  - `mbc/`: the cartridge controllers (none, MBC1, MBC2, MBC3 with its clock, MBC5), the
    header checksum, and save files.
  - `device.rs`: the console facade that a front end drives (building from a ROM image,
    stepping, keys, screen, game title, save RAM, link cable and printer).
  - `printer.rs`: the Game Boy Printer protocol, with its run-length decoding and prints.
  - `args.rs`, `util.rs`: the command-line scale argument and I/O error messages.
  - `bits.rs`: bit-level facts shared by the proofs.
- `tests/` — tests of the library on concrete values.
- `app/` — the command-line program: argument parsing, ROM and save files, the link cable
  to stdout or the printer, print files, and a test mode that dumps the screen.
