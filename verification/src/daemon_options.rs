//! The command line of the daemon.

use crate::order::same_text;
use vstd::prelude::*;
use vstd::string::*;

verus! {

pub const USAGE: &'static str = "usage: pronkd\n       pronkd --version\n       pronkd --help";

#[derive(Debug, Clone, Copy, PartialEq, Eq, Structural)]
pub enum Command {
    Run,
    Version,
    Help,
}

/// The command that the arguments stand for, if any.
pub open spec fn command_of(arguments: Seq<String>) -> Option<Command> {
    if arguments.len() == 0 {
        Some(Command::Run)
    } else if arguments.len() > 1 {
        None
    } else if arguments[0]@ == "--version"@ {
        Some(Command::Version)
    } else if arguments[0]@ == "--help"@ {
        Some(Command::Help)
    } else {
        None
    }
}

/// Read the arguments, without the name of the program.
pub fn parse(arguments: &[String]) -> (result: Result<Command, &'static str>)
    ensures
        match command_of(arguments@) {
            Some(command) => result == Ok::<Command, &'static str>(command),
            None => result is Err && result->Err_0@ == USAGE@,
        },
{
    proof {
        reveal_strlit("--version");
        reveal_strlit("--help");
    }
    if arguments.len() == 0 {
        return Ok(Command::Run);
    }
    if arguments.len() > 1 {
        return Err(USAGE);
    }
    if same_text(arguments[0].as_str(), "--version") {
        return Ok(Command::Version);
    }
    if same_text(arguments[0].as_str(), "--help") {
        return Ok(Command::Help);
    }
    Err(USAGE)
}

/// Without a word the daemon runs; it knows two words, and takes no more than one.
pub proof fn daemons_know_two_words(arguments: Seq<String>)
    ensures
        command_of(arguments) == Some(Command::Run) <==> arguments.len() == 0,
        command_of(arguments) == Some(Command::Version) <==> arguments.len() == 1
            && arguments[0]@ == "--version"@,
        command_of(arguments) == Some(Command::Help) <==> arguments.len() == 1 && arguments[0]@
            == "--help"@,
{
    reveal_strlit("--version");
    reveal_strlit("--help");
    assert("--version"@.len() == 9);
    assert("--help"@.len() == 6);
}

} // verus!
