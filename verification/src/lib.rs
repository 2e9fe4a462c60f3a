//! Instruction-level emulator core for the 8-bit handheld game console CPU
//! (a Z80-derived core): the register file and flags, the 64KB memory-mapped
//! address space, the divider and programmable timers, the interrupt
//! controller, and the fetch-decode-execute engine over the full opcode space.
//!
//! Rendering, windowing, input and process startup are not part of this
//! library; a driver paces the engine, ticks the timers and consumes the
//! memory-mapped display state.

pub mod arith;
pub mod engine;
pub mod gameboy;
pub mod gb_interrupts;
pub mod gb_memory;
pub mod gb_registers;
pub mod gb_registers_flags;
