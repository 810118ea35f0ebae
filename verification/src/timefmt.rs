//! Rendering a commit's local wall-clock time as text.

use vstd::prelude::*;

verus! {

/// The smallest local-time second count the lister accepts: roughly
/// sixty-three thousand years before the epoch, far inside the calendar
/// range of the date-time library relied on below.
pub const MIN_LOCAL_SECS: i64 = -2_000_000_000_000;

/// The largest local-time second count the lister accepts.
pub const MAX_LOCAL_SECS: i64 = 2_000_000_000_000;

/// Whether a local-time second count lies in the accepted window.
pub open spec fn in_time_window(secs: int) -> bool {
    MIN_LOCAL_SECS as int <= secs <= MAX_LOCAL_SECS as int
}

/// The text rendered for a local-time second count: the calendar date and
/// wall-clock time it denotes. The text is a function of the second count
/// alone.
pub uninterp spec fn local_time_display(secs: int) -> Seq<char>;

/// Relies on chrono's `DateTime::from_timestamp` and the `Display` of
/// `NaiveDateTime`: any second count inside the accepted window is
/// representable (the window lies far inside chrono's calendar range), and
/// the rendered text depends on the second count alone.
#[verifier::external_body]
pub(crate) fn format_local_time(secs: i64) -> (r: String)
    requires
        in_time_window(secs as int),
    ensures
        r@ == local_time_display(secs as int),
{
    match chrono::DateTime::from_timestamp(secs, 0) {
        Some(t) => format!("{}", t.naive_utc()),
        None => String::new(),
    }
}

} // verus!
