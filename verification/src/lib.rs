//! A cycle-counting emulation core for the MOS 6502/6510 instruction set.
//!
//! The crate decodes every opcode byte, resolves operands through the thirteen
//! addressing modes, executes documented and undocumented operations on an
//! explicitly owned register file, and reports the number of bus cycles each
//! instruction takes. Memory is reached through the [`bus::Bus`] trait; the
//! core never owns it.
pub mod addressing;
pub mod alu;
pub mod bus;
pub mod cpu;
pub mod error;
pub mod execute;
pub mod instruction;
pub mod opcodes;
pub mod registers;
pub mod status;
pub mod theorems;
