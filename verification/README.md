# game_enby

A Game Boy emulator core with its behaviour stated as Verus contracts and
proved.

- `src/` is the verified library:
  - `cpu/`: the register file (`registers`), condition codes (`operand`), the
    instruction set with each instruction's timing, effect, machine code and
    text (`instructions/`), the disassembler (`disasm`) and the bus the CPU
    sees (`cpu_bus`);
  - `bus/`: the bus traits, including buses layered over other buses;
  - `cartridge/`: the ROM header and the cartridge without a memory bank
    controller;
  - `ppu/`, `apu/`, `serial/`: the devices' registers and, for the PPU, its
    mode timing;
  - `machine`: the CPU and the cartridge run together one clock cycle at a
    time.
- `tests/` runs the library on concrete values.
- `app/` is the program: it reads a ROM file, opens a window and runs the
  machine, printing a trace line for every instruction.
