//! The command state machine: one keystroke becomes one command.

use vstd::prelude::*;
use crate::errors::Error;

verus! {

/// What the user asks for at a branch prompt.
#[derive(Clone, Copy, Debug, PartialEq, Eq, Structural)]
pub enum Command {
    /// Leave the branch alone and move to the next one.
    Keep,
    /// Delete the branch, then move to the next one.
    Delete,
    /// End the session at once, skipping every remaining branch.
    Quit,
    /// Print the command legend and prompt for the same branch again.
    ShowHelp,
}

/// Maps a single received character to a command, or rejects it.
///
/// The machine is pure and stateless: `k`, `d`, `q` and `?` are the whole
/// input alphabet, and any other character is an `InvalidInput` error that
/// carries exactly the offending character.
pub fn parse_command(c: char) -> (r: Result<Command, Error>)
    ensures
        c == 'k' ==> r == Ok::<Command, Error>(Command::Keep),
        c == 'd' ==> r == Ok::<Command, Error>(Command::Delete),
        c == 'q' ==> r == Ok::<Command, Error>(Command::Quit),
        c == '?' ==> r == Ok::<Command, Error>(Command::ShowHelp),
        !(c == 'k' || c == 'd' || c == 'q' || c == '?') ==> r == Err::<Command, Error>(
            Error::InvalidInput(c),
        ),
{
    match c {
        'k' => Ok(Command::Keep),
        'd' => Ok(Command::Delete),
        'q' => Ok(Command::Quit),
        '?' => Ok(Command::ShowHelp),
        _ => Err(Error::InvalidInput(c)),
    }
}

} // verus!

