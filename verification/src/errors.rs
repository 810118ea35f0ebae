//! The error taxonomy: every failure of the tool is one of these kinds,
//! and each is fatal to the run.

use vstd::prelude::*;
use vstd::string::StringExecFns;
use crate::text::push_char;

verus! {

/// One failure kind. Every error is fatal: nothing in the system recovers
/// from any of them, the run stops and the message is reported.
#[derive(Debug)]
pub enum Error {
    /// A failure of the underlying version-control storage: the repository
    /// cannot be opened, or a branch cannot be enumerated, resolved or
    /// deleted, or a commit carries a timestamp no calendar value represents.
    Repository(String),
    /// Raw terminal mode could not be entered or left.
    Terminal(String),
    /// A generic input/output failure.
    Io(String),
    /// A branch name is not valid UTF-8.
    Encoding,
    /// The user typed a character outside the command alphabet; the
    /// offending character is carried verbatim.
    InvalidInput(char),
}

impl Error {
    /// The human-readable message reported when the run stops on this error.
    pub fn message(&self) -> (r: String)
        ensures
            forall|m: String| self == Error::Repository(m) ==> r@ == m@,
            forall|m: String| self == Error::Terminal(m) ==> r@ == m@,
            forall|m: String| self == Error::Io(m) ==> r@ == m@,
            self is Encoding ==> r@ == "branch name is not valid UTF-8"@,
            forall|c: char| self == Error::InvalidInput(c) ==> r@ == "Invalid input, Don't know what '"@
                + seq![c] + "' means"@,
    {
        match self {
            Error::Repository(m) => m.clone(),
            Error::Terminal(m) => m.clone(),
            Error::Io(m) => m.clone(),
            Error::Encoding => String::from_str("branch name is not valid UTF-8"),
            Error::InvalidInput(c) => {
                let mut s = String::from_str("Invalid input, Don't know what '");
                push_char(&mut s, *c);
                s.append("' means");
                s
            },
        }
    }
}

} // verus!
