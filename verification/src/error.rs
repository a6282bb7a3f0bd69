//! Typed failures surfaced by the lifecycle operations, and the exact
//! messages the input-validation failures carry.

use vstd::prelude::*;

verus! {

/// A failed operation's outcome. Every failure is terminal for its
/// invocation and leaves the state untouched.
#[derive(Clone, Debug, PartialEq, Eq)]
pub enum ContractError {
    /// The store holds no job under the given id: the store's missing-key
    /// failure, passed through to the caller unchanged.
    NotFound { job_id: u64 },
    /// The caller's identity does not hold the role the requested transition
    /// requires (not the poster; not the assigned freelancer).
    Unauthorized {},
    /// Caller-supplied data or the job's current status rules the request
    /// out; recoverable by retrying with corrected input or state.
    InvalidInput { error: String },
}

pub open spec fn msg_title_empty() -> Seq<char> {
    "Title cannot be empty"@
}

pub open spec fn msg_cover_letter_empty() -> Seq<char> {
    "Cover letter cannot be empty"@
}

pub open spec fn msg_job_not_open_for_proposals() -> Seq<char> {
    "Job is not open for proposals"@
}

pub open spec fn msg_job_not_open() -> Seq<char> {
    "Job is not open"@
}

pub open spec fn msg_job_not_in_progress() -> Seq<char> {
    "Job is not in progress"@
}

} // verus!
