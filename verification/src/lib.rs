//! An 8-bit processor core: a register file, a status register and a
//! fetch-decode-execute loop that runs a program held as a byte sequence.
//!
//! Every executable function carries a contract over the mathematical model
//! of the machine in [`machine`], and the contracts are machine-checked.

pub mod cpu;
pub mod flags;
pub mod lemmas;
pub mod machine;
pub mod opcode;
