//! Cartridge header and opcode-stream decoding for a handheld console CPU.
//!
//! `cart` reads the fixed header block of a cartridge image into a `Cartridge`;
//! `cpu` holds the register file, the clock, and the instruction decoder.
pub mod capacity;
pub mod region;
pub mod cart;
pub mod cpu;
