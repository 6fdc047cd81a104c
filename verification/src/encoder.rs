//! Compiles text into a program for a one-cell tape machine.
//!
//! The machine has a single byte cell, initially zero, and three
//! instructions: `+` and `-` step the cell up and down (wrapping at the
//! ends), `.` prints it. The encoder walks the text once, and for each
//! character emits the shortest run of steps in one direction from the
//! previous character's byte to this one's, then a print.

use crate::machine::{
    lemma_never_wraps_concat, lemma_run_concat, never_wraps, printed_by, run, start, straight_line,
    Machine,
};
use vstd::prelude::*;

verus! {

/// The byte that stands for a character on the tape: its code point modulo 256.
pub open spec fn code_unit(c: char) -> u8 {
    ((c as int) % 256) as u8
}

/// The bytes that stand for the characters of `s`, in order.
pub open spec fn units_of(s: Seq<char>) -> Seq<u8> {
    Seq::new(s.len(), |i: int| code_unit(s[i]))
}

/// Whether the code point of `c` fits in one byte (ASCII and Latin-1).
pub open spec fn fits_byte(c: char) -> bool {
    0 <= c as int <= 255
}

/// How far apart two cell values are.
pub open spec fn distance(a: u8, b: u8) -> nat {
    if a >= b {
        (a - b) as nat
    } else {
        (b - a) as nat
    }
}

/// The byte printed last, or the cell's first value where none was.
pub open spec fn last_printed(printed: Seq<u8>) -> u8 {
    if printed.len() == 0 {
        0
    } else {
        printed.last()
    }
}

/// The least number of instructions that print `printed` without wrapping
/// the cell: for each byte one print, and as many steps as it lies from the
/// byte before.
pub open spec fn least_length(printed: Seq<u8>) -> nat
    decreases printed.len(),
{
    if printed.len() == 0 {
        0
    } else {
        least_length(printed.drop_last()) + distance(
            last_printed(printed.drop_last()),
            printed.last(),
        ) + 1
    }
}

/// `n` copies of the instruction `c`.
pub open spec fn run_of(c: char, n: nat) -> Seq<char> {
    Seq::new(n, |i: int| c)
}

/// The instructions that take the cell from `from` to `to` and print it.
pub open spec fn group(from: u8, to: u8) -> Seq<char> {
    if to > from {
        run_of('+', (to - from) as nat).push('.')
    } else {
        run_of('-', (from - to) as nat).push('.')
    }
}

/// The value the cell holds after the tape for `s` has run.
pub open spec fn cell_after(s: Seq<char>) -> u8 {
    if s.len() == 0 {
        0
    } else {
        code_unit(s.last())
    }
}

/// The tape for `s`: one group per character, in order.
pub open spec fn tape_of(s: Seq<char>) -> Seq<char>
    decreases s.len(),
{
    if s.len() == 0 {
        Seq::empty()
    } else {
        tape_of(s.drop_last()) + group(cell_after(s.drop_last()), code_unit(s.last()))
    }
}

/// Running `n` steps up from `m` adds `n` to the cell, as long as that does not
/// pass 255, and prints nothing.
proof fn lemma_run_up(m: Machine, n: nat)
    requires
        m.cell + n <= 255,
    ensures
        run(run_of('+', n), m) == (Machine { cell: (m.cell + n) as u8, printed: m.printed }),
    decreases n,
{
    if n > 0 {
        lemma_run_up(m, (n - 1) as nat);
        assert(run_of('+', n).drop_last() =~= run_of('+', (n - 1) as nat));
    }
}

/// Running `n` steps down from `m` takes `n` off the cell, as long as that does
/// not pass 0, and prints nothing.
proof fn lemma_run_down(m: Machine, n: nat)
    requires
        n <= m.cell,
    ensures
        run(run_of('-', n), m) == (Machine { cell: (m.cell - n) as u8, printed: m.printed }),
    decreases n,
{
    if n > 0 {
        lemma_run_down(m, (n - 1) as nat);
        assert(run_of('-', n).drop_last() =~= run_of('-', (n - 1) as nat));
    }
}

/// A group run from a machine whose cell holds `from` leaves `to` in the cell
/// and prints exactly `to`.
pub proof fn lemma_group_prints(m: Machine, to: u8)
    ensures
        run(group(m.cell, to), m) == (Machine { cell: to, printed: m.printed.push(to) }),
        straight_line(group(m.cell, to)),
{
    let from = m.cell;
    if to > from {
        let steps = run_of('+', (to - from) as nat);
        lemma_run_up(m, (to - from) as nat);
        assert(group(from, to).drop_last() =~= steps);
    } else {
        let steps = run_of('-', (from - to) as nat);
        lemma_run_down(m, (from - to) as nat);
        assert(group(from, to).drop_last() =~= steps);
    }
}

/// The state the machine is in after the tape for `s` has run from the start.
proof fn lemma_tape_runs(s: Seq<char>)
    ensures
        run(tape_of(s), start()) == (Machine { cell: cell_after(s), printed: units_of(s) }),
        straight_line(tape_of(s)),
    decreases s.len(),
{
    if s.len() == 0 {
        assert(units_of(s) =~= Seq::<u8>::empty());
    } else {
        let head = s.drop_last();
        let mid = run(tape_of(head), start());
        lemma_tape_runs(head);
        lemma_group_prints(mid, code_unit(s.last()));
        lemma_run_concat(tape_of(head), group(cell_after(head), code_unit(s.last())), start());
        assert(units_of(s) =~= units_of(head).push(code_unit(s.last())));
    }
}

/// Round trip: the tape for `s` is straight-line, and run from the start
/// state it prints one byte per character of `s`, each the character's code
/// point modulo 256, and nothing else. The empty string gives the empty
/// tape.
pub proof fn lemma_round_trip(s: Seq<char>)
    ensures
        straight_line(tape_of(s)),
        printed_by(tape_of(s)) == units_of(s),
        s.len() == 0 ==> tape_of(s) == Seq::<char>::empty(),
{
    lemma_tape_runs(s);
}

/// Round trip for text whose code points all fit in a byte: the tape prints
/// the code points of `s` themselves.
pub proof fn lemma_round_trip_exact(s: Seq<char>)
    requires
        forall|i: int| 0 <= i < s.len() ==> fits_byte(#[trigger] s[i]),
    ensures
        printed_by(tape_of(s)).len() == s.len(),
        forall|i: int|
            0 <= i < s.len() ==> (#[trigger] printed_by(tape_of(s))[i]) as int == s[i] as int,
{
    lemma_tape_runs(s);
    assert forall|i: int| 0 <= i < s.len() implies (#[trigger] printed_by(tape_of(s))[i]) as int
        == s[i] as int by {
        assert(fits_byte(s[i]));
    }
}

/// A run of one step repeated never wraps as long as it stays in the cell's
/// range.
proof fn lemma_steps_never_wrap(m: Machine, n: nat)
    ensures
        m.cell + n <= 255 ==> never_wraps(run_of('+', n), m),
        n <= m.cell ==> never_wraps(run_of('-', n), m),
    decreases n,
{
    if n > 0 {
        lemma_steps_never_wrap(m, (n - 1) as nat);
        assert(run_of('+', n).drop_last() =~= run_of('+', (n - 1) as nat));
        assert(run_of('-', n).drop_last() =~= run_of('-', (n - 1) as nat));
        if m.cell + n <= 255 {
            lemma_run_up(m, (n - 1) as nat);
        }
        if n <= m.cell {
            lemma_run_down(m, (n - 1) as nat);
        }
    }
}

/// A group never wraps, and is as long as its two values lie apart, and one.
proof fn lemma_group_never_wraps(m: Machine, to: u8)
    ensures
        never_wraps(group(m.cell, to), m),
        group(m.cell, to).len() == distance(m.cell, to) + 1,
{
    let from = m.cell;
    if to > from {
        lemma_steps_never_wrap(m, (to - from) as nat);
        assert(group(from, to).drop_last() =~= run_of('+', (to - from) as nat));
    } else {
        lemma_steps_never_wrap(m, (from - to) as nat);
        assert(group(from, to).drop_last() =~= run_of('-', (from - to) as nat));
    }
}

/// The tape for `s` never wraps, and is exactly as long as the least length
/// for what it prints.
proof fn lemma_tape_is_tight(s: Seq<char>)
    ensures
        never_wraps(tape_of(s), start()),
        tape_of(s).len() == least_length(units_of(s)),
    decreases s.len(),
{
    if s.len() == 0 {
        assert(units_of(s) =~= Seq::<u8>::empty());
    } else {
        let head = s.drop_last();
        let mid = run(tape_of(head), start());
        lemma_tape_is_tight(head);
        lemma_tape_runs(head);
        lemma_group_never_wraps(mid, code_unit(s.last()));
        lemma_never_wraps_concat(
            tape_of(head),
            group(cell_after(head), code_unit(s.last())),
            start(),
        );
        assert(units_of(s).drop_last() =~= units_of(head));
        assert(last_printed(units_of(head)) == cell_after(head));
    }
}

/// A tape that never wraps is at least as long as the least length for what
/// it prints, and as the cell then lies from the byte printed last.
proof fn lemma_length_bound(tape: Seq<char>)
    requires
        never_wraps(tape, start()),
    ensures
        tape.len() >= least_length(run(tape, start()).printed) + distance(
            run(tape, start()).cell,
            last_printed(run(tape, start()).printed),
        ),
    decreases tape.len(),
{
    if tape.len() > 0 {
        let before = run(tape.drop_last(), start());
        lemma_length_bound(tape.drop_last());
        if tape.last() == '.' {
            assert(before.printed.push(before.cell).drop_last() =~= before.printed);
        }
    }
}

/// Minimality: the tape for `s` never wraps the cell, and no tape that
/// prints the same bytes without wrapping is shorter.
pub proof fn lemma_no_shorter_tape(s: Seq<char>, other: Seq<char>)
    requires
        never_wraps(other, start()),
        printed_by(other) == units_of(s),
    ensures
        never_wraps(tape_of(s), start()),
        tape_of(s).len() <= other.len(),
{
    lemma_tape_is_tight(s);
    lemma_length_bound(other);
}

/// Truncates a character to its low byte.
fn low_byte(c: char) -> (b: u8)
    ensures
        b == code_unit(c),
{
    let wide: u32 = c as u32;
    assert((wide & 0xff) == wide % 256) by (bit_vector);
    (wide & 0xff) as u8
}

/// Appends `n` copies of a one-character instruction to `tape`.
fn push_run(tape: &mut String, instruction: &str, n: u8)
    requires
        instruction@.len() == 1,
    ensures
        final(tape)@ == old(tape)@ + run_of(instruction@[0], n as nat),
{
    let mut done: u8 = 0;
    while done < n
        invariant
            done <= n,
            instruction@.len() == 1,
            tape@ == old(tape)@ + run_of(instruction@[0], done as nat),
        decreases n - done,
    {
        tape.append(instruction);
        done = done + 1;
    }
}

/// Encodes one character, given the byte the cell holds before it.
///
/// Returns the character's group and the byte the cell holds after it.
pub fn char_to_brainfuck(c: char, last_value: u8) -> (r: (String, u8))
    ensures
        r.0@ == group(last_value, code_unit(c)),
        r.1 == code_unit(c),
{
    let value = low_byte(c);
    let mut string = String::new();
    proof {
        reveal_strlit("+");
        reveal_strlit("-");
        reveal_strlit(".");
    }
    if value > last_value {
        push_run(&mut string, "+", value - last_value);
    } else {
        push_run(&mut string, "-", last_value - value);
    }
    string.append(".");
    (string, value)
}

/// Encodes a string: the tape that prints it, byte for byte.
///
/// Run from the start state, the tape prints one byte for each character of
/// `value`, the character's code point modulo 256: for text in ASCII or
/// Latin-1, the text itself.
pub fn string_to_brainfuck(value: &str) -> (r: String)
    ensures
        r@ == tape_of(value@),
        straight_line(r@),
        printed_by(r@) == units_of(value@),
{
    broadcast use vstd::string::group_string_axioms;

    let mut string = String::new();
    let mut last_value: u8 = 0;
    for c in it: value.chars()
        invariant
            it.seq() == value@,
            string@ == tape_of(value@.take(it.index())),
            last_value == cell_after(value@.take(it.index())),
    {
        let ghost before = value@.take(it.index());
        let ghost upto = value@.take(it.index() + 1);
        assert(upto.drop_last() =~= before);
        let result = char_to_brainfuck(c, last_value);
        string.append(result.0.as_str());
        last_value = result.1;
    }
    assert(value@.take(value@.len() as int) =~= value@);
    proof {
        lemma_round_trip(value@);
    }
    string
}

} // verus!
