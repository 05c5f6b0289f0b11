//! An NMOS 6502 emulation core: a flat 64KB memory bank, the register set,
//! a 256-entry opcode dispatch table, a segment loader, a fetch-decode-execute
//! engine, a two-pass static disassembler, and a bounded execution tracer.
pub mod table;
pub mod machine;
pub mod cpu;
pub mod loader;
pub mod disasm;
pub mod trace;
pub mod laws;
