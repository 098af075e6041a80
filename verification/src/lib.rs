//! Core of a cycle-stepped Game Boy (DMG) emulator: CPU interpreter, PPU,
//! cartridge bank controllers, timer, joypad and the memory bus that ties
//! them together. Every function carries a contract over a mathematical
//! model of the machine.
pub mod bits;
pub mod registers;
pub mod timer;
pub mod keypad;
pub mod error;
pub mod mbc;
pub mod gpu;
pub mod memory;
pub mod instruction;
pub mod alu;
pub mod cpu;
pub mod header;
pub mod gameboy;
pub mod cadence;
