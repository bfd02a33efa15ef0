//! The commands of the debugger and the grammar of a command line.

use vstd::prelude::*;
use vstd::string::StringSliceAdditionalSpecFns;

verus! {

/// A command of the debugger.
#[derive(Debug, Copy, Clone, PartialEq, Eq, Structural)]
pub enum Command {
    /// Execute so many instructions.
    Step(usize),
    /// Leave the debugger.
    Exit,
    /// Do again what the last command did.
    Repeat,
}

/// Why a line is no command.
#[derive(Debug, Copy, Clone, PartialEq, Eq, Structural)]
pub enum CommandError {
    /// The line does not follow the grammar.
    Unrecognized,
    /// The line asks to repeat, and there is nothing to repeat.
    NoLastCommand,
}

/// Whether `byte` is a space or a tab.
pub open spec fn spec_is_space(byte: u8) -> bool {
    byte == 0x20 || byte == 0x09
}

/// Whether `byte` is a decimal digit.
pub open spec fn spec_is_digit(byte: u8) -> bool {
    0x30 <= byte <= 0x39
}

/// Whether `line` holds the four bytes `a`, `b`, `c`, `d` from `at` on.
pub open spec fn spec_has_word(line: Seq<u8>, at: int, a: u8, b: u8, c: u8, d: u8) -> bool {
    line.len() >= at + 4 && line[at] == a && line[at + 1] == b && line[at + 2] == c && line[at + 3]
        == d
}

/// Whether `line` holds decimal digits only from `start` up to `end`.
pub open spec fn spec_all_digits(line: Seq<u8>, start: int, end: int) -> bool {
    forall|i: int| start <= i < end ==> spec_is_digit(#[trigger] line[i])
}

/// The number that the decimal digits of `line` from `start` up to `end`
/// write.
pub open spec fn spec_number(line: Seq<u8>, start: int, end: int) -> nat
    decreases end - start,
{
    if end <= start {
        0
    } else {
        (spec_number(line, start, end - 1) * 10 + (line[end - 1] - 0x30)) as nat
    }
}

/// Where the digits begin in an argument that starts at `start`: after
/// the spaces and tabs.
pub open spec fn spec_digits_start(line: Seq<u8>, start: int) -> int
    decreases line.len() - start,
{
    if start < line.len() && spec_is_space(line[start]) {
        spec_digits_start(line, start + 1)
    } else {
        start
    }
}

/// The count of a step command whose name ends at `start`. Nothing after
/// the name means 1. Otherwise at least one space or tab must follow,
/// then at least one digit and nothing but digits to the end of the
/// line, and the number must fit the machine word.
pub open spec fn spec_step_count(line: Seq<u8>, start: int) -> Option<usize> {
    let digits = spec_digits_start(line, start);
    if start == line.len() {
        Some(1)
    } else if digits > start && digits < line.len() && spec_all_digits(
        line,
        digits,
        line.len() as int,
    ) && spec_number(line, digits, line.len() as int) <= usize::MAX {
        Some(spec_number(line, digits, line.len() as int) as usize)
    } else {
        None
    }
}

/// `Some(Exit)` if the name of an exit command ends where `line` ends.
pub open spec fn spec_exit_at(line: Seq<u8>, end: int) -> Option<Command> {
    if line.len() == end {
        Some(Command::Exit)
    } else {
        None
    }
}

/// The command that `line` writes, if it writes one.
///
/// A line that begins with `s` is a step command; its name is `step` if
/// the line begins so, else `s`. A line that begins with `e` or `q` is
/// an exit command, named `exit`, `quit`, `e` or `q`, the first of these
/// that the line begins with; nothing may follow the name. The empty
/// line repeats. No other line is a command.
pub open spec fn spec_parse(line: Seq<u8>) -> Option<Command> {
    if spec_has_word(line, 0, 0x73, 0x74, 0x65, 0x70) {
        match spec_step_count(line, 4) {
            Some(count) => Some(Command::Step(count)),
            None => None,
        }
    } else if line.len() >= 1 && line[0] == 0x73 {
        match spec_step_count(line, 1) {
            Some(count) => Some(Command::Step(count)),
            None => None,
        }
    } else if spec_has_word(line, 0, 0x65, 0x78, 0x69, 0x74) {
        spec_exit_at(line, 4)
    } else if spec_has_word(line, 0, 0x71, 0x75, 0x69, 0x74) {
        spec_exit_at(line, 4)
    } else if line.len() >= 1 && (line[0] == 0x65 || line[0] == 0x71) {
        spec_exit_at(line, 1)
    } else if line.len() == 0 {
        Some(Command::Repeat)
    } else {
        None
    }
}

/// The digits of a number written with more digits write at least as
/// much.
pub proof fn lemma_number_grows(line: Seq<u8>, start: int, middle: int, end: int)
    requires
        0 <= start <= middle <= end <= line.len(),
        spec_all_digits(line, start, end),
    ensures
        spec_number(line, start, middle) <= spec_number(line, start, end),
    decreases end - middle,
{
    if middle < end {
        lemma_number_grows(line, start, middle, end - 1);
        assert(spec_is_digit(line[end - 1]));
    }
}

/// Whether `line` holds the four bytes `a`, `b`, `c`, `d` at its start.
fn has_word(line: &[u8], a: u8, b: u8, c: u8, d: u8) -> (r: bool)
    ensures
        r == spec_has_word(line@, 0, a, b, c, d),
{
    line.len() >= 4 && line[0] == a && line[1] == b && line[2] == c && line[3] == d
}

/// The count of a step command whose name ends at `start`.
fn step_count(line: &[u8], start: usize) -> (r: Option<usize>)
    requires
        start <= line@.len(),
    ensures
        r == spec_step_count(line@, start as int),
{
    let len = line.len();
    if start == len {
        return Some(1);
    }
    let mut digits: usize = start;
    while digits < len && (line[digits] == 0x20 || line[digits] == 0x09)
        invariant
            start <= digits <= len,
            len == line@.len(),
            spec_digits_start(line@, digits as int) == spec_digits_start(line@, start as int),
        decreases len - digits,
    {
        digits += 1;
    }
    assert(spec_digits_start(line@, start as int) == digits);
    if digits == start || digits == len {
        return None;
    }
    let mut value: usize = 0;
    let mut i: usize = digits;
    while i < len
        invariant
            start < digits < len,
            digits <= i <= len,
            len == line@.len(),
            spec_digits_start(line@, start as int) == digits,
            spec_all_digits(line@, digits as int, i as int),
            value == spec_number(line@, digits as int, i as int),
        decreases len - i,
    {
        let byte = line[i];
        if byte < 0x30 || byte > 0x39 {
            assert(!spec_is_digit(line@[i as int]));
            return None;
        }
        let next = match value.checked_mul(10) {
            Some(tenfold) => tenfold.checked_add((byte - 0x30) as usize),
            None => None,
        };
        match next {
            Some(sum) => {
                value = sum;
            },
            None => {
                proof {
                    assert(spec_number(line@, digits as int, i + 1) == value * 10 + (byte - 0x30));
                    if spec_all_digits(line@, digits as int, len as int) {
                        lemma_number_grows(line@, digits as int, i + 1, len as int);
                    }
                }
                return None;
            },
        }
        i += 1;
    }
    Some(value)
}

impl Command {
    /// Reads a command line.
    ///
    /// `step` or `s`, alone or followed by spaces or tabs and a decimal
    /// count, is `Step`; alone it steps once. `exit`, `quit`, `e` and `q`
    /// are `Exit`. The empty line is `Repeat`. Anything else is refused.
    pub fn parse(line: &[u8]) -> (r: Result<Command, CommandError>)
        ensures
            r == (match spec_parse(line@) {
                Some(command) => Ok::<Command, CommandError>(command),
                None => Err::<Command, CommandError>(CommandError::Unrecognized),
            }),
    {
        let len = line.len();
        if has_word(line, 0x73, 0x74, 0x65, 0x70) {
            match step_count(line, 4) {
                Some(count) => Ok(Command::Step(count)),
                None => Err(CommandError::Unrecognized),
            }
        } else if len >= 1 && line[0] == 0x73 {
            match step_count(line, 1) {
                Some(count) => Ok(Command::Step(count)),
                None => Err(CommandError::Unrecognized),
            }
        } else if has_word(line, 0x65, 0x78, 0x69, 0x74) || has_word(line, 0x71, 0x75, 0x69, 0x74) {
            if len == 4 {
                Ok(Command::Exit)
            } else {
                Err(CommandError::Unrecognized)
            }
        } else if len >= 1 && (line[0] == 0x65 || line[0] == 0x71) {
            if len == 1 {
                Ok(Command::Exit)
            } else {
                Err(CommandError::Unrecognized)
            }
        } else if len == 0 {
            Ok(Command::Repeat)
        } else {
            Err(CommandError::Unrecognized)
        }
    }

    /// Reads a command line given as text.
    pub fn parse_str(line: &str) -> (r: Result<Command, CommandError>)
        ensures
            r == (match spec_parse(line.spec_bytes()) {
                Some(command) => Ok::<Command, CommandError>(command),
                None => Err::<Command, CommandError>(CommandError::Unrecognized),
            }),
    {
        Command::parse(line.as_bytes())
    }
}

} // verus!
