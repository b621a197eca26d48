# silicium

The verified core of the Silicium micro-kernel, written in Verus.

- `src/` is the library. Every function carries a contract that Verus
  proves: addresses and frames, the bitmap of identifier pools, durations and
  timestamps, the boot memory map and its allocator, the IRQ handler table,
  interrupt classification, the APIC, PIT and CMOS computations, the terminal
  grid and its line editing, the framebuffer pixels, the shell commands.
  Public `lemma_*` proof functions state the laws of these pieces.
- `tests/` runs the library on concrete values.
- `app/` is the kernel around it: port and memory-mapped I/O, locks,
  interrupt plumbing, the Limine boot protocol, drawing with
  embedded-graphics, keyboard decoding with pc-keyboard, and the asynchronous
  terminal and shell.
