//! The instruction set: which byte selects which operation.

use vstd::prelude::*;

verus! {

/// An operation the processor can execute.
#[derive(Debug, Clone, Copy, PartialEq, Eq, Structural)]
pub enum Opcode {
    /// `0xA9`: load the byte that follows the opcode into the accumulator.
    LoadAccumulator,
    /// `0x00`: stop the run.
    Halt,
    /// `0xAA`: move the accumulator into the index register.
    TransferAccumulatorToIndex,
    /// `0xE8`: add one to the index register, wrapping from 255 to 0.
    IncrementIndex,
}

/// A condition that aborts a run.
#[derive(Debug, Clone, Copy, PartialEq, Eq, Structural)]
pub enum Fault {
    /// The byte fetched as an opcode selects no operation.
    UnimplementedOpcode { opcode: u8 },
}

/// The operation that `byte` selects, or the fault raised for a byte that
/// selects none.
pub open spec fn decode(byte: u8) -> Result<Opcode, Fault> {
    if byte == 0xA9 {
        Ok(Opcode::LoadAccumulator)
    } else if byte == 0x00 {
        Ok(Opcode::Halt)
    } else if byte == 0xAA {
        Ok(Opcode::TransferAccumulatorToIndex)
    } else if byte == 0xE8 {
        Ok(Opcode::IncrementIndex)
    } else {
        Err(Fault::UnimplementedOpcode { opcode: byte })
    }
}

impl Opcode {
    /// Decodes one opcode byte.
    pub fn decode(byte: u8) -> (decoded: Result<Opcode, Fault>)
        ensures
            decoded == decode(byte),
    {
        match byte {
            0xA9 => Ok(Opcode::LoadAccumulator),
            0x00 => Ok(Opcode::Halt),
            0xAA => Ok(Opcode::TransferAccumulatorToIndex),
            0xE8 => Ok(Opcode::IncrementIndex),
            _ => Err(Fault::UnimplementedOpcode { opcode: byte }),
        }
    }
}

} // verus!
