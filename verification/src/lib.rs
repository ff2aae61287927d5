//! Instruction-set emulation for an 8-bit 6502-family microprocessor:
//! flat byte-addressable memory, register and status-flag state, an opcode
//! dispatch table, an addressing-mode resolver, and the
//! fetch-decode-execute loop with cycle accounting.

pub mod cpu;
pub mod flags;
pub mod opcodes;

pub use cpu::AddrMode;
pub use cpu::CPU;
pub use cpu::CpuError;
pub use cpu::Memory;
pub use flags::BREAK_FLAG;
pub use flags::CARRY_FLAG;
pub use flags::DECIMAL_FLAG;
pub use flags::INTERRUPT_DISABLE_FLAG;
pub use flags::NEGATIVE_FLAG;
pub use flags::OVERFLOW_FLAG;
pub use flags::UNUSED_FLAG;
pub use flags::ZERO_FLAG;
