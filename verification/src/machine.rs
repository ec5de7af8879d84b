//! The mathematical model of the processor: its state as plain values and
//! the meaning of one step and of a whole run as specification functions.

use vstd::prelude::*;
use crate::flags::{flag_is_set, with_zero_and_negative, NEGATIVE, ZERO};
use crate::opcode::{decode, Fault, Opcode};

verus! {

/// How a run ends when no fault occurs.
#[derive(Debug, Clone, Copy, PartialEq, Eq, Structural)]
pub enum Exit {
    /// A halt opcode was executed.
    Halted,
    /// The program counter reached the end of the program, at an opcode
    /// fetch or at the fetch of an immediate operand, before any halt opcode.
    EndOfProgram,
}

/// The processor state as mathematical values. The program counter is
/// unbounded here; the executable state keeps it in a machine word.
pub struct State {
    pub register_a: u8,
    pub register_x: u8,
    pub status: u8,
    pub program_counter: nat,
}

/// The index register after an increment: one more, and 0 after 255.
pub open spec fn incremented(value: u8) -> u8 {
    if value == 0xff {
        0
    } else {
        (value + 1) as u8
    }
}

impl State {
    /// The state in which every run of a fresh processor starts.
    pub open spec fn fresh() -> State {
        State { register_a: 0, register_x: 0, status: 0, program_counter: 0 }
    }

    /// Whether the zero flag is set.
    pub open spec fn zero_flag(self) -> bool {
        flag_is_set(self.status, ZERO)
    }

    /// Whether the negative flag is set.
    pub open spec fn negative_flag(self) -> bool {
        flag_is_set(self.status, NEGATIVE)
    }

    /// One fetch-decode-execute step on `program`.
    ///
    /// The result pairs the state after the step with what the step decided:
    /// `Ok(None)` to go on with the next step, `Ok(Some(exit))` when the run
    /// is over, `Err(fault)` when it is aborted. A step that ends or aborts
    /// the run changes no register and no flag.
    pub open spec fn step(self, program: Seq<u8>) -> (State, Result<Option<Exit>, Fault>) {
        let pc = self.program_counter;
        if pc >= program.len() {
            (self, Ok(Some(Exit::EndOfProgram)))
        } else {
            match decode(program[pc as int]) {
                Err(fault) => (self, Err(fault)),
                Ok(Opcode::Halt) => (self, Ok(Some(Exit::Halted))),
                Ok(Opcode::LoadAccumulator) => {
                    if pc + 1 >= program.len() {
                        (State { program_counter: pc + 1, ..self }, Ok(Some(Exit::EndOfProgram)))
                    } else {
                        let operand = program[(pc + 1) as int];
                        (
                            State {
                                register_a: operand,
                                status: with_zero_and_negative(self.status, operand),
                                program_counter: pc + 2,
                                ..self
                            },
                            Ok(None),
                        )
                    }
                },
                Ok(Opcode::TransferAccumulatorToIndex) => (
                    State {
                        register_a: 0,
                        register_x: self.register_a,
                        status: with_zero_and_negative(self.status, self.register_a),
                        program_counter: pc + 1,
                    },
                    Ok(None),
                ),
                Ok(Opcode::IncrementIndex) => {
                    let value = incremented(self.register_x);
                    (
                        State {
                            register_x: value,
                            status: with_zero_and_negative(self.status, value),
                            program_counter: pc + 1,
                            ..self
                        },
                        Ok(None),
                    )
                },
            }
        }
    }

    /// A whole run on `program`: steps are taken until one ends or aborts
    /// the run. The result pairs the final state with how the run ended.
    pub open spec fn run(self, program: Seq<u8>) -> (State, Result<Exit, Fault>)
        decreases program.len() - self.program_counter,
    {
        let (next, outcome) = self.step(program);
        match outcome {
            Ok(None) => next.run(program),
            Ok(Some(exit)) => (next, Ok(exit)),
            Err(fault) => (next, Err(fault)),
        }
    }

    /// Whether the program counter is where a run of `program` that ended
    /// with `outcome` leaves it: on a halt opcode after a halt, at or beyond
    /// the end of the program after running off it, and after a fault on
    /// the byte that the fault reports, which selects no operation.
    pub open spec fn at_rest(self, program: Seq<u8>, outcome: Result<Exit, Fault>) -> bool {
        let at = self.program_counter;
        match outcome {
            Ok(Exit::Halted) => at < program.len() && program[at as int] == 0x00,
            Ok(Exit::EndOfProgram) => at >= program.len(),
            Err(Fault::UnimplementedOpcode { opcode }) => {
                &&& at < program.len()
                &&& program[at as int] == opcode
                &&& decode(opcode) is Err
            },
        }
    }
}

} // verus!
