//! Deferred removal of scratch directories.
//!
//! A removal is ordered once and carried out after a fixed delay by
//! whoever runs the timers. Orders are independent of each other; none is
//! cancelled, merged with another or reordered against another. A removal
//! that finds its directory already gone has succeeded.

use vstd::prelude::*;
use vstd::string::*;

verus! {

/// An order to remove `directory`, with everything below it, once
/// `delay_secs` seconds have passed.
pub struct Deletion {
    pub directory: String,
    pub delay_secs: u64,
}

/// How a removal ended.
pub enum DeletionResult {
    /// The directory was removed.
    Removed,
    /// There was no such directory any more.
    AlreadyGone,
    /// The removal failed for the reason given.
    Failed(String),
}

/// What is written to the log when a removal fails for `reason`.
pub open spec fn failure_line(reason: Seq<char>) -> Seq<char> {
    "Error cleaning up temporary directory: "@ + reason
}

/// Orders the removal of `directory_path` after `delay` seconds.
pub fn schedule_delete(directory_path: &str, delay: u64) -> (order: Deletion)
    ensures
        order.directory@ == directory_path@,
        order.delay_secs == delay,
{
    Deletion { directory: directory_path.to_owned(), delay_secs: delay }
}

/// The line to log for a finished removal, if any: a failure is logged and
/// goes no further; a directory that was removed, or was gone already, is
/// a success and logs nothing.
pub fn deletion_report(result: &DeletionResult) -> (line: Option<String>)
    ensures
        match *result {
            DeletionResult::Failed(reason) => line matches Some(l) && l@ == failure_line(reason@),
            _ => line is None,
        },
{
    match result {
        DeletionResult::Failed(reason) => Some(
            String::from_str("Error cleaning up temporary directory: ").concat(reason.as_str()),
        ),
        _ => None,
    }
}

} // verus!
