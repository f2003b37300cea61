//! A minimal IA-32 instruction interpreter: eight general-purpose registers,
//! a flag register, a flat byte-addressable memory and an instruction pointer.
//!
//! [`machine::Machine`] is the mathematical model of the processor state and
//! defines what every instruction does.  [`emulator::Emulator`] is the
//! executable state; each of its operations is proved to compute exactly what
//! the model says.  [`laws`] states consequences of the model that callers can
//! rely on.

pub mod bytes;
pub mod fault;
pub mod machine;
pub mod modrm;
pub mod emulator;
pub mod dump;
pub mod laws;
