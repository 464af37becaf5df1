use vstd::prelude::*;
use crate::commons::clock::DateTime;
use crate::commons::id::Id;

verus! {

/// A user (the follower) following another user.
#[derive(Debug, Clone, Copy, PartialEq, Eq, Structural)]
pub struct Follow {
    pub follower_id: Id,
    pub following_id: Id,
    pub created_at: DateTime,
}

impl Follow {
    /// The pair under which the store keeps a follow: the follower and the
    /// followed user.
    pub open spec fn key(self) -> (Id, Id) {
        (self.follower_id, self.following_id)
    }

    /// Whether two users follow each other, from the number of follows that
    /// the store counts between them in either direction: both follows must exist.
    pub fn mutual_from_count(count: i64) -> (b: bool)
        ensures
            b == (count > 1),
    {
        count > 1
    }
}

/// The follow of `following_id` by `follower_id` among the store's follow
/// rows, which hold one follow per pair of users.
pub open spec fn find_follow(rows: Map<(Id, Id), Follow>, follower_id: Id, following_id: Id) -> Option<Follow> {
    if rows.contains_key((follower_id, following_id)) {
        Some(rows[(follower_id, following_id)])
    } else {
        None
    }
}

/// The follow rows after a follow is saved.
pub open spec fn save_follow(rows: Map<(Id, Id), Follow>, follow: Follow) -> Map<(Id, Id), Follow> {
    rows.insert(follow.key(), follow)
}

/// The follow rows after a follow is deleted, and whether a row was removed.
pub open spec fn delete_follow(rows: Map<(Id, Id), Follow>, follow: Follow) -> (Map<(Id, Id), Follow>, bool) {
    (rows.remove(follow.key()), rows.contains_key(follow.key()))
}

} // verus!
