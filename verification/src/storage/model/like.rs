use vstd::prelude::*;
use crate::commons::clock::DateTime;
use crate::commons::id::Id;

verus! {

/// A user's like of a fragment.
#[derive(Debug, Clone, Copy, PartialEq, Eq, Structural)]
pub struct Like {
    pub fragment_id: Id,
    pub user_id: Id,
    pub created_at: DateTime,
}

impl Like {
    /// The pair under which the store keeps a like: its fragment and its user.
    pub open spec fn key(self) -> (Id, Id) {
        (self.fragment_id, self.user_id)
    }
}

/// The like of `fragment_id` by `user_id` among the store's like rows, which
/// hold one like per pair of fragment and user.
pub open spec fn find_like(rows: Map<(Id, Id), Like>, fragment_id: Id, user_id: Id) -> Option<Like> {
    if rows.contains_key((fragment_id, user_id)) {
        Some(rows[(fragment_id, user_id)])
    } else {
        None
    }
}

/// The like rows after a like is saved.
pub open spec fn save_like(rows: Map<(Id, Id), Like>, like: Like) -> Map<(Id, Id), Like> {
    rows.insert(like.key(), like)
}

/// The like rows after a like is deleted, and whether a row was removed.
pub open spec fn delete_like(rows: Map<(Id, Id), Like>, like: Like) -> (Map<(Id, Id), Like>, bool) {
    (rows.remove(like.key()), rows.contains_key(like.key()))
}

} // verus!
