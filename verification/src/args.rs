//! The server's settings, and the rules that the command line's values are
//! held to.

use vstd::prelude::*;

verus! {

/// The settings the server runs with.
#[derive(Debug, PartialEq, Eq)]
pub struct Args {
    /// The port to listen on; never zero.
    pub port: u16,
    /// The directory the static files are served from.
    pub web_dir: String,
}

/// `Args` with its text as a sequence of characters.
pub struct ArgsView {
    pub port: u16,
    pub web_dir: Seq<char>,
}

impl View for Args {
    type V = ArgsView;

    open spec fn view(&self) -> ArgsView {
        ArgsView { port: self.port, web_dir: self.web_dir@ }
    }
}

/// Why the settings were refused.
#[derive(Debug, PartialEq, Eq)]
pub struct ArgError {
    pub details: String,
}

impl ArgError {
    /// An error that says `msg`.
    pub fn new(msg: &str) -> (r: ArgError)
        ensures
            r.details@ == msg@,
    {
        ArgError { details: msg.to_owned() }
    }

    /// What the error says.
    pub fn description(&self) -> (r: &str)
        ensures
            r@ == self.details@,
    {
        self.details.as_str()
    }

    /// What the error says, as an owned string.
    pub fn to_string(&self) -> (r: String)
        ensures
            r@ == self.details@,
    {
        self.details.clone()
    }
}

/// Whether `c` is one of the digits `0` to `9`.
pub open spec fn is_digit(c: char) -> bool {
    48 <= c as int <= 57
}

/// The value of the digit `c`.
pub open spec fn digit_of(c: char) -> nat {
    (c as int - 48) as nat
}

/// The number that a run of digits writes in base ten; zero for the empty run.
pub open spec fn number_of(digits: Seq<char>) -> nat
    decreases digits.len(),
{
    if digits.len() == 0 {
        0
    } else {
        10 * number_of(digits.drop_last()) + digit_of(digits.last())
    }
}

/// How many characters of `text` a leading `+` takes up: one or none.
pub open spec fn sign_len(text: Seq<char>) -> int {
    if text.len() > 0 && text[0] == '+' {
        1
    } else {
        0
    }
}

/// The port that `text` writes: an optional `+`, then one or more digits
/// whose number is at most 65535. Anything else writes none.
pub open spec fn port_of(text: Seq<char>) -> Option<u16> {
    let digits = text.skip(sign_len(text));
    if digits.len() > 0 && (forall|i: int| 0 <= i < digits.len() ==> is_digit(#[trigger] digits[i]))
        && number_of(digits) <= u16::MAX {
        Some(number_of(digits) as u16)
    } else {
        None
    }
}

/// The settings that the command line's values stand for, or what is wrong
/// with them. The directory is looked at first.
pub open spec fn args_of(web_dir: Seq<char>, web_dir_exists: bool, port: Seq<char>) -> Result<
    ArgsView,
    Seq<char>,
> {
    if !web_dir_exists {
        Err("Given web-dir does not exist"@)
    } else {
        match port_of(port) {
            Some(number) if number != 0 => Ok(ArgsView { port: number, web_dir }),
            _ => Err("Cannot read given port"@),
        }
    }
}

/// The outcome of reading the settings, with its text as sequences of
/// characters.
pub open spec fn outcome_view(outcome: Result<Args, ArgError>) -> Result<ArgsView, Seq<char>> {
    match outcome {
        Ok(args) => Ok(args@),
        Err(error) => Err(error.details@),
    }
}

/// A longer run of characters writes a number no smaller than any of its
/// beginnings.
proof fn lemma_number_grows(digits: Seq<char>, k: int)
    requires
        0 <= k <= digits.len(),
    ensures
        number_of(digits.take(k)) <= number_of(digits),
    decreases digits.len() - k,
{
    if k == digits.len() {
        assert(digits.take(k) =~= digits);
    } else {
        lemma_number_grows(digits, k + 1);
        assert(digits.take(k + 1).drop_last() =~= digits.take(k));
    }
}

/// The value of `c` if it is a digit.
fn digit_value(c: char) -> (r: Option<u32>)
    ensures
        r is Some <==> is_digit(c),
        r matches Some(value) ==> value == digit_of(c),
{
    let code: u32 = c as u32;
    if 48 <= code && code <= 57 {
        Some(code - 48)
    } else {
        None
    }
}

/// Reads a port number written in base ten.
pub fn parse_port(text: &str) -> (r: Option<u16>)
    ensures
        r == port_of(text@),
{
    broadcast use vstd::string::group_string_axioms;

    let ghost sign = sign_len(text@);
    let ghost digits = text@.skip(sign);
    let mut value: u32 = 0;
    let mut at_start = true;
    let mut any_digit = false;
    for c in it: text.chars()
        invariant
            it.seq() == text@,
            sign == sign_len(text@),
            digits == text@.skip(sign),
            at_start == (it.index() == 0),
            it.index() >= 1 ==> it.index() >= sign,
            any_digit == (it.index() > sign),
            value <= u16::MAX,
            value == number_of(text@.subrange(sign, if it.index() >= sign { it.index() } else { sign })),
            forall|i: int| sign <= i < it.index() ==> is_digit(#[trigger] text@[i]),
    {
        let ghost index = it.index();
        if at_start && c == '+' {
            at_start = false;
        } else {
            at_start = false;
            let digit = match digit_value(c) {
                Some(digit) => digit,
                None => {
                    assert(!is_digit(digits[index - sign]));
                    return None;
                },
            };
            let ghost before = text@.subrange(sign, index);
            let ghost upto = text@.subrange(sign, index + 1);
            assert(upto.drop_last() =~= before);
            let next: u32 = value * 10 + digit;
            if next > 65535 {
                proof {
                    assert(digits.take(index + 1 - sign) =~= upto);
                    lemma_number_grows(digits, index + 1 - sign);
                }
                return None;
            }
            value = next;
            any_digit = true;
        }
    }
    if any_digit {
        assert forall|i: int| 0 <= i < digits.len() implies is_digit(#[trigger] digits[i]) by {
            assert(digits[i] == text@[i + sign]);
        }
        Some(value as u16)
    } else {
        None
    }
}

/// Holds the command line's values to the rules: the directory must exist,
/// and the port must be a number from 1 to 65535.
///
/// `web_dir_exists` says whether a look at the file system found `web_dir`.
pub fn parse_args(web_dir: &str, web_dir_exists: bool, port: &str) -> (r: Result<Args, ArgError>)
    ensures
        outcome_view(r) == args_of(web_dir@, web_dir_exists, port@),
{
    if !web_dir_exists {
        return Err(ArgError::new("Given web-dir does not exist"));
    }
    let number = match parse_port(port) {
        Some(number) => number,
        None => 0,
    };
    if number == 0 {
        return Err(ArgError::new("Cannot read given port"));
    }
    Ok(Args { port: number, web_dir: web_dir.to_owned() })
}

} // verus!
