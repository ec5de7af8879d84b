//! Facts about runs of the machine model, proved once for every start state
//! and, where they speak of one, for every program.

use vstd::prelude::*;
use crate::flags::{lemma_with_zero_and_negative, sign_bit, NEGATIVE, ZERO};
use crate::machine::{Exit, State};
use crate::opcode::Fault;

verus! {

/// Where a run comes to rest: the program counter never moves backwards,
/// and it ends where the way the run ended says it must.
pub proof fn lemma_run_rests(start: State, program: Seq<u8>)
    ensures
        ({
            let (end, outcome) = start.run(program);
            &&& start.program_counter <= end.program_counter
            &&& end.at_rest(program, outcome)
        }),
    decreases program.len() - start.program_counter,
{
    let (next, outcome) = start.step(program);
    if outcome == Ok::<Option<Exit>, Fault>(None) {
        lemma_run_rests(next, program);
    }
}

/// Running a program again from the state in which a run of it ended
/// changes nothing and ends the same way.
pub proof fn lemma_run_idempotent(start: State, program: Seq<u8>)
    ensures
        ({
            let (end, outcome) = start.run(program);
            end.run(program) == (end, outcome)
        }),
{
    lemma_run_rests(start, program);
}

/// A run recomputes the zero and the negative flag only: the carry,
/// interrupt, decimal and overflow bits and the two unused bits of the
/// status register end as they started.
pub proof fn lemma_run_keeps_other_flags(start: State, program: Seq<u8>)
    ensures
        start.run(program).0.status & !(ZERO | NEGATIVE) == start.status & !(ZERO | NEGATIVE),
    decreases program.len() - start.program_counter,
{
    let (next, outcome) = start.step(program);
    if outcome == Ok::<Option<Exit>, Fault>(None) {
        assert(next.status & !(ZERO | NEGATIVE) == start.status & !(ZERO | NEGATIVE)) by {
            lemma_with_zero_and_negative(start.status, next.register_a);
            lemma_with_zero_and_negative(start.status, next.register_x);
        }
        lemma_run_keeps_other_flags(next, program);
    }
}

/// Loading any byte and halting leaves that byte in the accumulator, sets
/// the zero flag exactly when the byte is zero and the negative flag exactly
/// when its sign bit is set, and leaves the index register alone.
pub proof fn lemma_load_then_halt(start: State, value: u8)
    requires
        start.program_counter == 0,
    ensures
        ({
            let (end, outcome) = start.run(seq![0xA9u8, value, 0x00u8]);
            &&& outcome == Ok::<Exit, Fault>(Exit::Halted)
            &&& end.register_a == value
            &&& end.register_x == start.register_x
            &&& end.zero_flag() <==> value == 0
            &&& end.negative_flag() <==> sign_bit(value)
            &&& end.program_counter == 2
        }),
{
    reveal_with_fuel(State::run, 2);
    lemma_with_zero_and_negative(start.status, value);
}

/// A program that holds the halt opcode alone changes no register and no
/// flag, so running it any number of times leaves a fresh processor fresh.
pub proof fn lemma_halt_alone(start: State)
    requires
        start.program_counter == 0,
    ensures
        start.run(seq![0x00u8]) == (start, Ok::<Exit, Fault>(Exit::Halted)),
        State::fresh().run(seq![0x00u8]).0 == State::fresh(),
        !State::fresh().zero_flag() && !State::fresh().negative_flag(),
{
    assert(0u8 & ZERO == 0 && 0u8 & NEGATIVE == 0) by (bit_vector);
}

/// A transfer derives the flags from the accumulator as it was before the
/// transfer, moves that value into the index register and clears the
/// accumulator. With a zero accumulator the zero flag ends up set and the
/// index register zero, whatever the index register held before.
pub proof fn lemma_transfer_then_halt(start: State)
    requires
        start.program_counter == 0,
    ensures
        ({
            let (end, outcome) = start.run(seq![0xAAu8, 0x00u8]);
            &&& outcome == Ok::<Exit, Fault>(Exit::Halted)
            &&& end.register_x == start.register_a
            &&& end.register_a == 0
            &&& end.zero_flag() <==> start.register_a == 0
            &&& end.negative_flag() <==> sign_bit(start.register_a)
            &&& end.program_counter == 1
        }),
{
    reveal_with_fuel(State::run, 2);
    lemma_with_zero_and_negative(start.status, start.register_a);
}

} // verus!
