# dosdbg

The core of a GDB remote stub that runs under DOS, with its behaviour stated
in Verus contracts and proved.

- `src/` — the verified library: the saved register file and its exchange
  with GDB (`stub::gdb`, `stub::core_regs`), the software-breakpoint table
  (`stub::gdb`), DR7 watchpoint encoding (`stub::debug_regs`), the byte
  layout of the register save area (`helpers`), and the decoding of BIOS
  serial and memory-size replies (`bios`).
- `app/` — everything that talks to the machine: BIOS/DOS interrupts, port
  I/O, debug-register and memory access, the `gdbstub` target and connection
  impls, the entry point and interrupt handlers.
- `tests/` — concrete scenarios for each contract and law.
