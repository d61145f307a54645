//! A cycle-approximate emulator core for the MOS 6502 8-bit microprocessor.
//!
//! The crate models the flat 16-bit memory bus, the instruction table that
//! maps each opcode to its operation, addressing mode, length and cycle cost,
//! and the processor itself: registers, status flags, the page-1 stack, the
//! addressing-mode resolver, the executor and the three interrupt sequences.

pub mod bus;
pub mod cartridge;
pub mod connection;
pub mod cpu;
pub mod data_flow;
pub mod device;
