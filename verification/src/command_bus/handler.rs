//! What a command's handler asks of the store, and what the store answers.
//! Each handler is a state machine: it starts with a call, and from its stage
//! and the store's reply it decides the next call or its result.

use vstd::prelude::*;
use crate::command_bus::error::CommandBusError;
use crate::commons::id::Id;
use crate::storage::model::follow::Follow;
use crate::storage::model::fragment::Fragment;
use crate::storage::model::like::Like;
use crate::storage::model::review::Review;

verus! {

/// A read or a write that a handler asks of the store.
#[derive(Debug)]
pub enum StoreCall {
    /// Read the fragment with this id.
    FindFragment(Id),
    /// Read whether these two users follow each other.
    FollowEachOther(Id, Id),
    /// Read the like of this fragment by this user.
    FindLike(Id, Id),
    /// Read the follow of the second user by the first.
    FindFollow(Id, Id),
    /// Write a new fragment.
    SaveFragment(Fragment),
    /// Write an existing fragment's new values.
    UpdateFragment(Fragment),
    /// Write a review.
    SaveReview(Review),
    /// Write a like.
    SaveLike(Like),
    /// Delete a like.
    DeleteLike(Like),
    /// Write a follow.
    SaveFollow(Follow),
    /// Delete a follow.
    DeleteFollow(Follow),
}

/// The store's answer to a call.
#[derive(Debug)]
pub enum StoreReply {
    /// To `FindFragment`: the fragment, if there is one.
    Fragment(Option<Fragment>),
    /// To `FollowEachOther`: whether both follows exist.
    Friends(bool),
    /// To `FindLike`: the like, if there is one.
    Like(Option<Like>),
    /// To `FindFollow`: the follow, if there is one.
    Follow(Option<Follow>),
    /// To `SaveFragment` and `UpdateFragment`: the fragment as stored.
    Saved(Fragment),
    /// To `SaveReview`: the review as stored.
    SavedReview(Review),
    /// To `SaveLike`: the like as stored.
    SavedLike(Like),
    /// To `SaveFollow`: the follow as stored.
    SavedFollow(Follow),
    /// To `DeleteLike` and `DeleteFollow`: whether a record was removed.
    Deleted(bool),
}

/// A handler's next move: a call to make, with the stage to resume from when
/// its reply comes, or the handler's result.
#[derive(Debug)]
pub enum HandlerStep<S, E> {
    Call(S, StoreCall),
    Done(Result<Option<E>, CommandBusError>),
}

/// Where a handler stands that reads one fragment and writes its new values.
#[derive(Debug)]
pub enum WriteStage {
    /// The fragment under the command's id was asked for.
    Finding,
    /// The decided fragment was handed to the store.
    Writing,
}

} // verus!
