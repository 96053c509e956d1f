//! Reading the commands of an interactive four-function calculator.

use vstd::prelude::*;

verus! {

/// What a line of input asks the calculator to do.
#[derive(Debug, Clone, Copy, PartialEq, Eq, Structural)]
pub enum Command {
    /// Leave the calculator.
    Quit,
    /// Apply the operator `+`, `-`, `*` or `/` to two operands.
    Operator(char),
    /// Anything else.
    Invalid,
}

/// The four operators that the calculator knows.
pub open spec fn is_operator(c: char) -> bool {
    c == '+' || c == '-' || c == '*' || c == '/'
}

/// How a line is read: a lone `q` quits; otherwise the first character
/// decides, and whatever follows it is ignored.
pub open spec fn command_of(line: Seq<char>) -> Command {
    if line == seq!['q'] {
        Command::Quit
    } else if line.len() > 0 && is_operator(line[0]) {
        Command::Operator(line[0])
    } else {
        Command::Invalid
    }
}

/// Reads one line of input as a command.
pub fn read_command(line: &str) -> (command: Command)
    ensures
        command == command_of(line@),
{
    let length = line.unicode_len();
    if length == 0 {
        return Command::Invalid;
    }
    let first = line.get_char(0);
    if length == 1 && first == 'q' {
        assert(line@ =~= seq!['q']);
        Command::Quit
    } else if first == '+' || first == '-' || first == '*' || first == '/' {
        Command::Operator(first)
    } else {
        Command::Invalid
    }
}

} // verus!
