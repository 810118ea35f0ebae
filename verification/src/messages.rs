//! The exact text of every line the tool prints.
//!
//! Each function returns the literal message text; how a line is styled and
//! where it is written belong to the caller, so the logic here never depends
//! on terminal capabilities.

use vstd::prelude::*;
use vstd::string::StrSliceExecFns;
use vstd::string::StringExecFns;
use crate::branches::BranchDescriptor;
use crate::branches::BranchView;
use crate::branches::view_wf;

verus! {

/// The undo hint printed after a deletion: it names the deleted branch and
/// the full commit id it pointed to, so running the quoted command
/// recreates the branch exactly as it was.
pub open spec fn undo_text(b: BranchView) -> Seq<char> {
    "Deleted branch '"@ + b.name + "', to undo run `git branch "@ + b.name + " "@ + b.id + "`"@
}

/// The informational line for a branch skipped because it is checked out.
pub open spec fn ignore_text(name: Seq<char>) -> Seq<char> {
    "Ignoring '"@ + name + "' because it is the current branch"@
}

/// The line printed when no branch is up for review.
pub fn empty_message() -> (r: String)
    ensures
        r@ == "Found no branches (master is ignored)"@,
{
    String::from_str("Found no branches (master is ignored)")
}

/// The informational line for the checked-out branch, which is reported
/// and skipped rather than prompted.
pub fn ignore_message(name: &String) -> (r: String)
    ensures
        r@ == ignore_text(name@),
{
    let mut s = String::from_str("Ignoring '");
    s.append(name.as_str());
    s.append("' because it is the current branch");
    s
}

/// The confirmation line printed after a branch was deleted, carrying the
/// advisory undo command.
pub fn deleted_message(name: &String, id: &String) -> (r: String)
    ensures
        r@ == "Deleted branch '"@ + name@ + "', to undo run `git branch "@ + name@ + " "@ + id@
            + "`"@,
{
    let mut s = String::from_str("Deleted branch '");
    s.append(name.as_str());
    s.append("', to undo run `git branch ");
    s.append(name.as_str());
    s.append(" ");
    s.append(id.as_str());
    s.append("`");
    s
}

/// The header line of the command legend.
pub fn help_header() -> (r: String)
    ensures
        r@ == "Here are what the commands mean:"@,
{
    String::from_str("Here are what the commands mean:")
}

/// The four legend entries, each a command key paired with its description.
pub fn help_entries() -> (r: Vec<(String, String)>)
    ensures
        r@.len() == 4,
        r@[0].0@ == "k"@ && r@[0].1@ == " - Keep the branch"@,
        r@[1].0@ == "d"@ && r@[1].1@ == " - Delete the branch"@,
        r@[2].0@ == "q"@ && r@[2].1@ == " - Quit"@,
        r@[3].0@ == "?"@ && r@[3].1@ == " - Show this help text"@,
{
    let mut v: Vec<(String, String)> = Vec::new();
    v.push((String::from_str("k"), String::from_str(" - Keep the branch")));
    v.push((String::from_str("d"), String::from_str(" - Delete the branch")));
    v.push((String::from_str("q"), String::from_str(" - Quit")));
    v.push((String::from_str("?"), String::from_str(" - Show this help text")));
    v
}

/// The pieces of a branch prompt, kept apart so that each can be styled on
/// its own before being joined into the prompt line.
pub struct PromptPieces {
    /// The branch name in single quotes.
    pub name_part: String,
    /// The first ten hex characters of the tip commit id, in parentheses.
    pub id_part: String,
    /// The commit's local time as text.
    pub time_part: String,
    /// The command legend reminder.
    pub legend: String,
}

/// Builds the prompt pieces for one branch: the quoted name, the first ten
/// hex characters of its commit id in parentheses, its commit local time,
/// and the command legend.
pub fn prompt_pieces(d: &BranchDescriptor) -> (p: PromptPieces)
    requires
        view_wf(d@),
    ensures
        p.name_part@ == "'"@ + d@.name + "'"@,
        p.id_part@ == "("@ + d@.id.subrange(0, 10) + ")"@,
        p.time_part@ == d@.time_display,
        p.legend@ == "(k/d/q/?)"@,
{
    let mut name_part = String::from_str("'");
    name_part.append(d.name.as_str());
    name_part.append("'");
    let mut id_part = String::from_str("(");
    id_part.append(d.id.as_str().substring_ascii(0, 10));
    id_part.append(")");
    PromptPieces {
        name_part,
        id_part,
        time_part: d.time_display.clone(),
        legend: String::from_str("(k/d/q/?)"),
    }
}

} // verus!
