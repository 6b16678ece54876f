//! Core of an 8-bit console emulator: the processor, its arithmetic unit,
//! the memory bus and the picture unit's registers and timing.
pub mod alu;
pub mod register;
pub mod registers;
pub mod opcodes;
pub mod instructions;
pub mod ppu_register;
pub mod buffer;
pub mod ppu;
pub mod ines;
pub mod memory;
pub mod cpu;
