# machine

A MOS 6502 machine emulator and debugger library, with the parts of a C64
(bank switching PLA, CIA time-of-day clock, static RAM) and a small
pin-level circuit model, verified with Verus.

- `src/mos6502`: the instruction table, the instruction semantics as spec
  functions, and laws such as push/pop, JSR/RTS and decimal ADC.
- `src/machine`: memory (RAM with a ROM overlay), the machine state and its
  fetch-decode-execute step, including a checked step that refuses what
  cannot run.
- `src/emulator`: pins, pin builders, ports, circuits, addressable devices
  and the components (PLA 82S100, HM62256B, CIA 6526 and its TOD clock,
  NAND, oscillator), and the pin layout of the W65C02 processor.
- `src/debugger`, `src/cli`, `src/client`: breakpoints and watched
  variables, command-line and profile settings, client errors.
- `app/`: the command-line program: argument and profile parsing, file
  loading, the threaded machine loop and terminal output.
