//! The interactive session: reviewing the ordered branch list one keystroke
//! at a time.
//!
//! A session walks the ordered list. The checked-out branch is reported and
//! skipped; every other branch is prompted for, and one received character
//! decides what happens next. The session itself performs no I/O: the caller
//! renders the prompt, reads the character, carries out a deletion, and
//! prints whatever line a step hands back.

use vstd::prelude::*;
use crate::branches::BranchDescriptor;
use crate::branches::view_wf;
use crate::command::Command;
use crate::command::parse_command;
use crate::errors::Error;
use crate::messages::deleted_message;
use crate::messages::ignore_message;
use crate::messages::ignore_text;
use crate::messages::undo_text;

verus! {

/// What one received character makes the session do.
#[derive(Debug)]
pub enum Reaction {
    /// The branch is kept; the session moved to the next branch.
    Kept,
    /// The branch is to be deleted: the caller deletes the local branch of
    /// this name, then prints the undo hint. The session moved on.
    Delete { name: String, undo_message: String },
    /// The session ended at once; every remaining branch is skipped.
    Quit,
    /// The command legend is to be printed; the same branch is prompted
    /// again, and nothing about the session changed.
    Help,
}

/// Whether a character is in the command alphabet.
pub open spec fn is_command_char(c: char) -> bool {
    c == 'k' || c == 'd' || c == 'q' || c == '?'
}

/// Where the review stands after one character: quitting jumps past every
/// branch, keeping or deleting advances by one, and help or a rejected
/// character leaves the position unchanged.
pub open spec fn advance_of(c: char, pos: int, len: int) -> int {
    if c == 'q' {
        len
    } else if c == 'k' || c == 'd' {
        pos + 1
    } else {
        pos
    }
}

/// The position after a whole sequence of received characters.
pub open spec fn run_pos(cs: Seq<char>, pos: int, len: int) -> int
    decreases cs.len(),
{
    if cs.len() == 0 {
        pos
    } else {
        run_pos(cs.drop_first(), advance_of(cs[0], pos, len), len)
    }
}

/// Law: any number of help requests never moves the review. However many
/// `?` characters are received, the session stands at the same branch.
pub proof fn lemma_help_never_advances(cs: Seq<char>, pos: int, len: int)
    requires
        forall|i: int| 0 <= i < cs.len() ==> cs[i] == '?',
    ensures
        run_pos(cs, pos, len) == pos,
    decreases cs.len(),
{
    if cs.len() > 0 {
        lemma_help_never_advances(cs.drop_first(), pos, len);
    }
}

/// Law: a run of help requests followed by one terminal command lands the
/// review exactly where that command alone would have: the help requests
/// re-display the same branch's prompt without advancing.
pub proof fn lemma_help_then_command(cs: Seq<char>, c: char, pos: int, len: int)
    requires
        forall|i: int| 0 <= i < cs.len() ==> cs[i] == '?',
    ensures
        run_pos(cs.push(c), pos, len) == advance_of(c, pos, len),
    decreases cs.len(),
{
    let full = cs.push(c);
    assert(full.len() == cs.len() + 1);
    if cs.len() == 0 {
        assert(full[0] == c);
        assert(full.drop_first() =~= Seq::<char>::empty());
        assert(run_pos(full, pos, len) == run_pos(full.drop_first(), advance_of(c, pos, len), len));
        assert(run_pos(Seq::<char>::empty(), advance_of(c, pos, len), len) == advance_of(
            c,
            pos,
            len,
        ));
    } else {
        assert(full[0] == cs[0]);
        assert(cs[0] == '?');
        assert(advance_of(cs[0], pos, len) == pos);
        assert(full.drop_first() =~= cs.drop_first().push(c));
        assert(run_pos(full, pos, len) == run_pos(cs.drop_first().push(c), pos, len));
        lemma_help_then_command(cs.drop_first(), c, pos, len);
    }
}

/// One review session over an ordered branch list.
pub struct Session {
    /// The ordered branch list, fixed for the whole session.
    pub branches: Vec<BranchDescriptor>,
    /// The index of the branch under review; the session is over once it
    /// reaches the end of the list.
    pub pos: usize,
}

impl Session {
    /// A session is well-formed while its position has not run past the
    /// list and every descriptor carries a well-formed commit id.
    pub open spec fn wf(&self) -> bool {
        &&& self.pos <= self.branches@.len()
        &&& forall|k: int| 0 <= k < self.branches@.len() ==> view_wf((#[trigger] self.branches@[k])@)
    }

    /// Starts a session at the first branch of the list.
    pub fn new(branches: Vec<BranchDescriptor>) -> (s: Session)
        requires
            forall|k: int| 0 <= k < branches@.len() ==> view_wf((#[trigger] branches@[k])@),
        ensures
            s.branches == branches,
            s.pos == 0,
            s.wf(),
    {
        Session { branches, pos: 0 }
    }

    /// Whether every branch has been reviewed or skipped.
    pub fn finished(&self) -> (r: bool)
        ensures
            r == (self.pos >= self.branches@.len()),
    {
        self.pos >= self.branches.len()
    }

    /// The branch under review.
    pub fn current(&self) -> (r: &BranchDescriptor)
        requires
            self.wf(),
            self.pos < self.branches@.len(),
        ensures
            r == self.branches@[self.pos as int],
    {
        &self.branches[self.pos]
    }

    /// Whether the branch under review is the checked-out branch, which is
    /// never prompted and never deletable.
    pub fn current_is_head(&self) -> (r: bool)
        requires
            self.wf(),
            self.pos < self.branches@.len(),
        ensures
            r == self.branches@[self.pos as int]@.is_head,
    {
        self.branches[self.pos].is_head
    }

    /// Skips the checked-out branch: moves to the next branch and returns
    /// the one informational line to print for it.
    pub fn skip_head(&mut self) -> (r: String)
        requires
            old(self).wf(),
            old(self).pos < old(self).branches@.len(),
            old(self).branches@[old(self).pos as int]@.is_head,
        ensures
            final(self).branches == old(self).branches,
            final(self).pos == old(self).pos + 1,
            final(self).wf(),
            r@ == ignore_text(old(self).branches@[old(self).pos as int]@.name),
    {
        let n: usize = self.branches.len();
        let msg = ignore_message(&self.branches[self.pos].name);
        assert(self.pos < n);
        self.pos = self.pos + 1;
        msg
    }

    /// Feeds one received character to the session.
    ///
    /// The branch list never changes, and the position moves exactly as
    /// `advance_of` says. `k` keeps the branch, `d` orders its deletion and
    /// hands back the undo hint, `q` ends the session, `?` asks for the
    /// legend and changes nothing; any other character is rejected with an
    /// `InvalidInput` error carrying that exact character, and also changes
    /// nothing.
    pub fn react(&mut self, c: char) -> (r: Result<Reaction, Error>)
        requires
            old(self).wf(),
            old(self).pos < old(self).branches@.len(),
            !old(self).branches@[old(self).pos as int]@.is_head,
        ensures
            final(self).branches == old(self).branches,
            final(self).pos as int == advance_of(
                c,
                old(self).pos as int,
                old(self).branches@.len() as int,
            ),
            final(self).wf(),
            c == 'k' ==> r == Ok::<Reaction, Error>(Reaction::Kept),
            c == 'q' ==> r == Ok::<Reaction, Error>(Reaction::Quit),
            c == '?' ==> r == Ok::<Reaction, Error>(Reaction::Help) && *final(self) == *old(self),
            c == 'd' ==> {
                &&& r matches Ok(Reaction::Delete { name, undo_message })
                &&& name == old(self).branches@[old(self).pos as int].name
                &&& undo_message@ == undo_text(old(self).branches@[old(self).pos as int]@)
            },
            !is_command_char(c) ==> r == Err::<Reaction, Error>(Error::InvalidInput(c))
                && *final(self) == *old(self),
    {
        let n: usize = self.branches.len();
        assert(self.pos < n);
        match parse_command(c)? {
            Command::Keep => {
                self.pos = self.pos + 1;
                Ok(Reaction::Kept)
            },
            Command::Delete => {
                let b = &self.branches[self.pos];
                let name = b.name.clone();
                let undo_message = deleted_message(&b.name, &b.id);
                self.pos = self.pos + 1;
                Ok(Reaction::Delete { name, undo_message })
            },
            Command::Quit => {
                self.pos = n;
                Ok(Reaction::Quit)
            },
            Command::ShowHelp => Ok(Reaction::Help),
        }
    }
}

} // verus!
