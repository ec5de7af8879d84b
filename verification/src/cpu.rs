//! The executable processor: registers, status flags and the interpreter.

use vstd::prelude::*;
use crate::flags::{
    lemma_with_flag, lemma_with_zero_and_negative, sign_bit, with_flag, with_zero_and_negative,
    NEGATIVE, ZERO,
};
use crate::lemmas::{lemma_run_keeps_other_flags, lemma_run_rests};
use crate::machine::{Exit, State};
use crate::opcode::{Fault, Opcode};

verus! {

/// The processor: an accumulator, an index register, a status register and a
/// program counter that indexes the program being run.
#[derive(Debug, Clone, Copy, PartialEq, Eq, Structural)]
pub struct CPU {
    pub register_a: u8,
    pub register_x: u8,
    pub status: u8,
    pub program_counter: usize,
}

impl View for CPU {
    type V = State;

    open spec fn view(&self) -> State {
        State {
            register_a: self.register_a,
            register_x: self.register_x,
            status: self.status,
            program_counter: self.program_counter as nat,
        }
    }
}

impl CPU {
    /// A processor with every register, every flag and the program counter
    /// at zero.
    pub fn new() -> (cpu: CPU)
        ensures
            cpu == (CPU { register_a: 0, register_x: 0, status: 0, program_counter: 0 }),
            cpu@ == State::fresh(),
    {
        CPU { register_a: 0, register_x: 0, status: 0, program_counter: 0 }
    }

    /// Whether the zero flag is set.
    pub fn zero_flag(&self) -> (set: bool)
        ensures
            set == self@.zero_flag(),
    {
        self.status & ZERO != 0
    }

    /// Whether the negative flag is set.
    pub fn negative_flag(&self) -> (set: bool)
        ensures
            set == self@.negative_flag(),
    {
        self.status & NEGATIVE != 0
    }

    /// Sets the zero flag if `value` is zero and clears it otherwise.
    pub fn set_zero_bit(&mut self, value: u8)
        ensures
            *final(self) == (CPU {
                status: with_flag(old(self).status, ZERO, value == 0),
                ..*old(self)
            }),
            final(self)@.zero_flag() <==> value == 0,
            final(self).status & !ZERO == old(self).status & !ZERO,
    {
        proof {
            lemma_with_flag(self.status, ZERO, value == 0);
        }
        if value == 0 {
            self.status |= ZERO;
        } else {
            self.status &= !ZERO;
        }
    }

    /// Sets the negative flag if bit 7 of `value` is set and clears it
    /// otherwise.
    pub fn set_neg_bit(&mut self, value: u8)
        ensures
            *final(self) == (CPU {
                status: with_flag(old(self).status, NEGATIVE, sign_bit(value)),
                ..*old(self)
            }),
            final(self)@.negative_flag() <==> sign_bit(value),
            final(self).status & !NEGATIVE == old(self).status & !NEGATIVE,
    {
        proof {
            lemma_with_flag(self.status, NEGATIVE, sign_bit(value));
        }
        if (value & NEGATIVE) != 0 {
            self.status |= NEGATIVE;
        } else {
            self.status &= !NEGATIVE;
        }
    }

    /// Recomputes the zero and the negative flag from `value`.
    pub fn set_zero_and_neg_bits(&mut self, value: u8)
        ensures
            *final(self) == (CPU {
                status: with_zero_and_negative(old(self).status, value),
                ..*old(self)
            }),
            final(self)@.zero_flag() <==> value == 0,
            final(self)@.negative_flag() <==> sign_bit(value),
            final(self).status & !(ZERO | NEGATIVE) == old(self).status & !(ZERO | NEGATIVE),
    {
        proof {
            lemma_with_zero_and_negative(self.status, value);
        }
        self.set_zero_bit(value);
        self.set_neg_bit(value);
    }

    /// Executes the instruction at the program counter.
    ///
    /// Returns `Ok(None)` when the run goes on, `Ok(Some(exit))` when it is
    /// over and `Err(fault)` when the byte at the program counter selects no
    /// operation. A load whose operand lies beyond the end of the program
    /// ends the run without loading anything.
    pub fn step(&mut self, program: &[u8]) -> (outcome: Result<Option<Exit>, Fault>)
        ensures
            (final(self)@, outcome) == old(self)@.step(program@),
    {
        if self.program_counter >= program.len() {
            return Ok(Some(Exit::EndOfProgram));
        }
        match Opcode::decode(program[self.program_counter]) {
            Err(fault) => Err(fault),
            Ok(Opcode::Halt) => Ok(Some(Exit::Halted)),
            Ok(Opcode::LoadAccumulator) => {
                self.program_counter += 1;
                if self.program_counter >= program.len() {
                    return Ok(Some(Exit::EndOfProgram));
                }
                self.register_a = program[self.program_counter];
                self.set_zero_and_neg_bits(self.register_a);
                self.program_counter += 1;
                Ok(None)
            },
            Ok(Opcode::TransferAccumulatorToIndex) => {
                self.set_zero_and_neg_bits(self.register_a);
                self.register_x = self.register_a;
                self.register_a = 0;
                self.program_counter += 1;
                Ok(None)
            },
            Ok(Opcode::IncrementIndex) => {
                if self.register_x == 0xff {
                    self.register_x = 0;
                } else {
                    self.register_x += 1;
                }
                self.set_zero_and_neg_bits(self.register_x);
                self.program_counter += 1;
                Ok(None)
            },
        }
    }

    /// Runs `program` from the current state until it halts, runs off its
    /// end or meets a byte that selects no operation.
    ///
    /// On `Ok(Exit::Halted)` the program counter rests on the halt opcode;
    /// on `Ok(Exit::EndOfProgram)` it is at or beyond the end of the
    /// program; on `Err(fault)` it rests on the offending byte, and the
    /// registers and flags are as the instructions before it left them.
    /// Only the zero and the negative flag are ever rewritten.
    #[verifier::loop_isolation(false)]
    pub fn interpret(&mut self, program: &[u8]) -> (outcome: Result<Exit, Fault>)
        ensures
            (final(self)@, outcome) == old(self)@.run(program@),
            old(self).program_counter <= final(self).program_counter,
            final(self)@.at_rest(program@, outcome),
            final(self).status & !(ZERO | NEGATIVE) == old(self).status & !(ZERO | NEGATIVE),
    {
        proof {
            lemma_run_rests(self@, program@);
            lemma_run_keeps_other_flags(self@, program@);
        }
        loop
            invariant
                self@.run(program@) == old(self)@.run(program@),
            decreases program.len() - self.program_counter,
        {
            match self.step(program) {
                Ok(None) => {},
                Ok(Some(exit)) => {
                    return Ok(exit);
                },
                Err(fault) => {
                    return Err(fault);
                },
            }
        }
    }
}

} // verus!
