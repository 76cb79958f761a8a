# gbmu

The processor of a Game Boy emulator, with its behaviour stated and proved.

- `src/cpu.rs` and `src/cpu/{block0,block1,block_prefix,ops8,registers,...}`: a
  CPU that runs one whole instruction per step, decoding opcodes by their bit
  fields, with HALT, the HALT bug, delayed EI and interrupt dispatch. It runs
  opcodes 0x00–0x7F and the CB prefix; the blocks for 0x80–0xFF are not part of
  it, and a step on such an opcode is outside its contracts.
- `src/cpu/defines.rs`, `src/cpu_def.rs`, `src/cpu/ops/`, `src/cpu/instructions.rs`,
  `src/cpu/cb_instructions.rs`: a CPU that runs one machine cycle per tick; each
  opcode is a queue of micro-operations taken from two 256-entry tables.
- `src/cpu2/`: a cycle-level CPU that fetches its opcodes from a program buffer, and
  a register file with an operand accumulator. The register types (`A`, `B`, ...,
  `AF`, ..., `WZ`) shared by both micro-op CPUs name their slots through
  `lemma_register_slots`.
- `src/mmu.rs`: the 64 KiB address space with the interrupt registers.
- `src/bits.rs`: bit-level facts shared by the proofs.
- `src/cli.rs`, `src/file.rs`, `src/communications.rs`: argument checks, the
  launch history and the debugger's data.
- `app/`: the command-line program (argument parsing, files, the settings file).
