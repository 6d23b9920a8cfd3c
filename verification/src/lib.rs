//! Core of an emulator for a 1980s 8-bit handheld game console: the
//! register file, the region-aware memory bus with its write observer,
//! the instruction decoder, and the execution engine, together with the
//! virtual clock used by the surrounding pacing loop.
//!
//! The modules build on one another leaf-first: `bits` holds shared
//! bit-manipulation lemmas, `reg` the register file, `mem` the address
//! space, `instr` the decoder, `cpu` the execution engine and `clock`
//! the interrupt scheduling state.

pub mod bits;
pub mod reg;
pub mod mem;
pub mod instr;
pub mod clock;
pub mod cpu;
