//! Interactive pruning of stale local git branches: a verified core.
//!
//! The library holds the logic of the tool: the command state machine that
//! interprets a keystroke, the branch lister that filters and orders branch
//! descriptors, the session state machine that drives the review of each
//! branch, the error taxonomy, and the exact text of every message the tool
//! prints. Terminal and repository I/O live outside the library.

pub mod branches;
pub mod command;
pub mod errors;
pub mod messages;
pub mod session;
mod text;
pub mod timefmt;
