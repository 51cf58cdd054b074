//! Core of a handheld-console emulator: an 8-bit CPU interpreter, a
//! scanline-based pixel processing unit, and the memory bus that binds them.
//!
//! The bus (`System`) owns every addressable store and decodes 16-bit
//! addresses; the PPU renders one scanline per call into an RGBA framebuffer;
//! the CPU fetches, decodes and executes one instruction per step, with
//! interrupt dispatch before each step.  Window glue, ROM loading and frame
//! pacing live outside this crate.

pub mod cpu;
pub mod ppu;
mod rng;
pub mod system;
pub mod words;
