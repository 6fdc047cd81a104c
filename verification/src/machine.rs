//! The one-cell tape machine that encoded programs run on.
//!
//! Only the three instructions that the encoder emits are given a meaning
//! here. A tape made of nothing else is called straight-line: it has no
//! loops, pointer moves or input, so running it is a single left-to-right
//! pass.

use vstd::prelude::*;

verus! {

/// The machine's state: the byte in its cell and the bytes printed so far.
pub struct Machine {
    pub cell: u8,
    pub printed: Seq<u8>,
}

/// The state every program starts from: a zero cell and nothing printed.
pub open spec fn start() -> Machine {
    Machine { cell: 0, printed: Seq::empty() }
}

/// Whether `c` is one of the three instructions `+`, `-` and `.`.
pub open spec fn is_instruction(c: char) -> bool {
    c == '+' || c == '-' || c == '.'
}

/// Whether every character of `tape` is one of the three instructions.
pub open spec fn straight_line(tape: Seq<char>) -> bool {
    forall|i: int| 0 <= i < tape.len() ==> is_instruction(#[trigger] tape[i])
}

/// One instruction: `+` and `-` step the cell, wrapping between 255 and 0;
/// `.` prints the cell. Any other character leaves the machine as it is.
pub open spec fn step(m: Machine, instruction: char) -> Machine {
    if instruction == '+' {
        Machine { cell: if m.cell == 255 { 0u8 } else { (m.cell + 1) as u8 }, printed: m.printed }
    } else if instruction == '-' {
        Machine { cell: if m.cell == 0 { 255u8 } else { (m.cell - 1) as u8 }, printed: m.printed }
    } else if instruction == '.' {
        Machine { cell: m.cell, printed: m.printed.push(m.cell) }
    } else {
        m
    }
}

/// The state after running `tape` from `m`, instruction by instruction.
pub open spec fn run(tape: Seq<char>, m: Machine) -> Machine
    decreases tape.len(),
{
    if tape.len() == 0 {
        m
    } else {
        step(run(tape.drop_last(), m), tape.last())
    }
}

/// Whether `instruction`, taken in state `m`, wraps the cell from one end of
/// its range to the other.
pub open spec fn wraps(m: Machine, instruction: char) -> bool {
    (instruction == '+' && m.cell == 255) || (instruction == '-' && m.cell == 0)
}

/// Whether `tape`, run from `m`, gets through without ever wrapping the cell.
pub open spec fn never_wraps(tape: Seq<char>, m: Machine) -> bool
    decreases tape.len(),
{
    tape.len() == 0 || (never_wraps(tape.drop_last(), m) && !wraps(
        run(tape.drop_last(), m),
        tape.last(),
    ))
}

/// What `tape` prints when run from the start state.
pub open spec fn printed_by(tape: Seq<char>) -> Seq<u8> {
    run(tape, start()).printed
}

/// Running two tapes one after the other is running their concatenation.
pub proof fn lemma_run_concat(first: Seq<char>, second: Seq<char>, m: Machine)
    ensures
        run(first + second, m) == run(second, run(first, m)),
    decreases second.len(),
{
    if second.len() > 0 {
        lemma_run_concat(first, second.drop_last(), m);
        assert((first + second).drop_last() =~= first + second.drop_last());
    }
}

/// Two tapes one after the other never wrap exactly when the first does not,
/// and the second does not from where the first ends.
pub proof fn lemma_never_wraps_concat(first: Seq<char>, second: Seq<char>, m: Machine)
    ensures
        never_wraps(first + second, m) == (never_wraps(first, m) && never_wraps(
            second,
            run(first, m),
        )),
    decreases second.len(),
{
    if second.len() == 0 {
        assert(first + second =~= first);
    } else {
        lemma_never_wraps_concat(first, second.drop_last(), m);
        lemma_run_concat(first, second.drop_last(), m);
        assert((first + second).drop_last() =~= first + second.drop_last());
    }
}

} // verus!
