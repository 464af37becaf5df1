use vstd::prelude::*;

verus! {

/// The kinds of events in the event log.
#[derive(Debug, Clone, Copy, PartialEq, Eq, Structural)]
pub enum EventType {
    FragmentCreated,
    FragmentForked,
    FragmentPublished,
    FragmentUpdated,
    FragmentForkReviewed,
    FragmentLiked,
    FragmentDisliked,
    UserFollowed,
    UserUnfollowed,
    ForkSubmitted,
}

} // verus!
