use vstd::prelude::*;
use crate::commons::clock::DateTime;
use crate::commons::id::Id;
use crate::commons::review::Comment;

verus! {

/// The verdict of a review on a fork.
#[derive(Debug, Clone, Copy, PartialEq, Eq, Structural)]
pub enum ReviewAction {
    Approve,
    Reject,
}

/// A review of a fork by the author of the fork's parent.
#[derive(Debug, PartialEq, Eq)]
pub struct Review {
    pub id: Id,
    pub fragment_id: Id,
    pub reviewer_id: Id,
    pub comment: Option<Comment>,
    pub created_at: DateTime,
    pub action: ReviewAction,
}

} // verus!
