//! The events that command handlers append to the event log.

use vstd::prelude::*;
use crate::commons::actor::Actor;
use crate::commons::clock::DateTime;
use crate::commons::events::EventType;
use crate::commons::fragment::Content;
use crate::commons::id::Id;
use crate::commons::review::Comment;
use crate::storage::model::review::ReviewAction;

verus! {

/// What every event tells: its kind, when it happened and who acted.
pub trait Event: Sized {
    spec fn spec_event_type(&self) -> EventType;

    spec fn spec_timestamp(&self) -> DateTime;

    spec fn spec_event_actor(&self) -> Actor;

    fn event_type(&self) -> (t: EventType)
        ensures
            t == self.spec_event_type(),
    ;

    fn timestamp(&self) -> (t: DateTime)
        ensures
            t == self.spec_timestamp(),
    ;

    fn actor(&self) -> (a: Actor)
        ensures
            a == self.spec_event_actor(),
    ;

    /// The event's payload: the event itself.
    fn data(&self) -> (d: &Self)
        ensures
            *d == *self,
    {
        self
    }
}

/// A fork was submitted for review.
#[derive(Debug, Clone, Copy, PartialEq, Eq, Structural)]
pub struct ForkSubmittedEvent {
    pub fragment_id: Id,
    pub timestamp: DateTime,
    pub actor: Actor,
}

impl Event for ForkSubmittedEvent {
    open spec fn spec_event_type(&self) -> EventType {
        EventType::ForkSubmitted
    }

    open spec fn spec_timestamp(&self) -> DateTime {
        self.timestamp
    }

    open spec fn spec_event_actor(&self) -> Actor {
        self.actor
    }

    fn event_type(&self) -> (t: EventType) {
        EventType::ForkSubmitted
    }

    fn timestamp(&self) -> (t: DateTime) {
        self.timestamp
    }

    fn actor(&self) -> (a: Actor) {
        self.actor
    }
}

/// A fragment was written.
#[derive(Debug, PartialEq, Eq)]
pub struct FragmentCreatedEvent {
    pub fragment_id: Id,
    pub user_id: Id,
    pub content: Content,
    pub end: bool,
    pub timestamp: DateTime,
}

impl Event for FragmentCreatedEvent {
    open spec fn spec_event_type(&self) -> EventType {
        EventType::FragmentCreated
    }

    open spec fn spec_timestamp(&self) -> DateTime {
        self.timestamp
    }

    open spec fn spec_event_actor(&self) -> Actor {
        Actor::User(self.user_id)
    }

    fn event_type(&self) -> (t: EventType) {
        EventType::FragmentCreated
    }

    fn timestamp(&self) -> (t: DateTime) {
        self.timestamp
    }

    fn actor(&self) -> (a: Actor) {
        Actor::User(self.user_id)
    }
}

/// A user took back a like of a fragment.
#[derive(Debug, Clone, Copy, PartialEq, Eq, Structural)]
pub struct FragmentDislikedEvent {
    pub fragment_id: Id,
    pub timestamp: DateTime,
    pub user_id: Id,
}

impl Event for FragmentDislikedEvent {
    open spec fn spec_event_type(&self) -> EventType {
        EventType::FragmentDisliked
    }

    open spec fn spec_timestamp(&self) -> DateTime {
        self.timestamp
    }

    open spec fn spec_event_actor(&self) -> Actor {
        Actor::User(self.user_id)
    }

    fn event_type(&self) -> (t: EventType) {
        EventType::FragmentDisliked
    }

    fn timestamp(&self) -> (t: DateTime) {
        self.timestamp
    }

    fn actor(&self) -> (a: Actor) {
        Actor::User(self.user_id)
    }
}

/// A user forked a fragment.
#[derive(Debug, PartialEq, Eq)]
pub struct FragmentForkedEvent {
    pub fragment_id: Id,
    pub user_id: Id,
    pub content: Content,
    pub end: bool,
    pub parent_fragment_id: Id,
    pub timestamp: DateTime,
}

impl Event for FragmentForkedEvent {
    open spec fn spec_event_type(&self) -> EventType {
        EventType::FragmentForked
    }

    open spec fn spec_timestamp(&self) -> DateTime {
        self.timestamp
    }

    open spec fn spec_event_actor(&self) -> Actor {
        Actor::User(self.user_id)
    }

    fn event_type(&self) -> (t: EventType) {
        EventType::FragmentForked
    }

    fn timestamp(&self) -> (t: DateTime) {
        self.timestamp
    }

    fn actor(&self) -> (a: Actor) {
        Actor::User(self.user_id)
    }
}

/// A fragment was published.
#[derive(Debug, Clone, Copy, PartialEq, Eq, Structural)]
pub struct FragmentPublishedEvent {
    pub fragment_id: Id,
    pub timestamp: DateTime,
    pub actor: Actor,
}

impl Event for FragmentPublishedEvent {
    open spec fn spec_event_type(&self) -> EventType {
        EventType::FragmentPublished
    }

    open spec fn spec_timestamp(&self) -> DateTime {
        self.timestamp
    }

    open spec fn spec_event_actor(&self) -> Actor {
        self.actor
    }

    fn event_type(&self) -> (t: EventType) {
        EventType::FragmentPublished
    }

    fn timestamp(&self) -> (t: DateTime) {
        self.timestamp
    }

    fn actor(&self) -> (a: Actor) {
        self.actor
    }
}

/// A fragment's text or end mark changed.
#[derive(Debug, PartialEq, Eq)]
pub struct FragmentUpdatedEvent {
    pub fragment_id: Id,
    pub timestamp: DateTime,
    pub content: Content,
    pub end: bool,
    pub actor: Actor,
}

impl Event for FragmentUpdatedEvent {
    open spec fn spec_event_type(&self) -> EventType {
        EventType::FragmentUpdated
    }

    open spec fn spec_timestamp(&self) -> DateTime {
        self.timestamp
    }

    open spec fn spec_event_actor(&self) -> Actor {
        self.actor
    }

    fn event_type(&self) -> (t: EventType) {
        EventType::FragmentUpdated
    }

    fn timestamp(&self) -> (t: DateTime) {
        self.timestamp
    }

    fn actor(&self) -> (a: Actor) {
        self.actor
    }
}

/// A fork was reviewed.
#[derive(Debug, PartialEq, Eq)]
pub struct FragmentForkReviewedEvent {
    pub fragment_id: Id,
    pub timestamp: DateTime,
    pub comment: Option<Comment>,
    pub action: ReviewAction,
    pub actor: Actor,
}

impl Event for FragmentForkReviewedEvent {
    open spec fn spec_event_type(&self) -> EventType {
        EventType::FragmentForkReviewed
    }

    open spec fn spec_timestamp(&self) -> DateTime {
        self.timestamp
    }

    open spec fn spec_event_actor(&self) -> Actor {
        self.actor
    }

    fn event_type(&self) -> (t: EventType) {
        EventType::FragmentForkReviewed
    }

    fn timestamp(&self) -> (t: DateTime) {
        self.timestamp
    }

    fn actor(&self) -> (a: Actor) {
        self.actor
    }
}

/// A user liked a fragment.
#[derive(Debug, Clone, Copy, PartialEq, Eq, Structural)]
pub struct FragmentLikedEvent {
    pub fragment_id: Id,
    pub user_id: Id,
    pub timestamp: DateTime,
}

impl Event for FragmentLikedEvent {
    open spec fn spec_event_type(&self) -> EventType {
        EventType::FragmentLiked
    }

    open spec fn spec_timestamp(&self) -> DateTime {
        self.timestamp
    }

    open spec fn spec_event_actor(&self) -> Actor {
        Actor::User(self.user_id)
    }

    fn event_type(&self) -> (t: EventType) {
        EventType::FragmentLiked
    }

    fn timestamp(&self) -> (t: DateTime) {
        self.timestamp
    }

    fn actor(&self) -> (a: Actor) {
        Actor::User(self.user_id)
    }
}

/// A user started following another user; the followed user is the event's actor.
#[derive(Debug, Clone, Copy, PartialEq, Eq, Structural)]
pub struct UserFollowedEvent {
    pub follower_id: Id,
    pub following_id: Id,
    pub timestamp: DateTime,
}

impl Event for UserFollowedEvent {
    open spec fn spec_event_type(&self) -> EventType {
        EventType::UserFollowed
    }

    open spec fn spec_timestamp(&self) -> DateTime {
        self.timestamp
    }

    open spec fn spec_event_actor(&self) -> Actor {
        Actor::User(self.following_id)
    }

    fn event_type(&self) -> (t: EventType) {
        EventType::UserFollowed
    }

    fn timestamp(&self) -> (t: DateTime) {
        self.timestamp
    }

    fn actor(&self) -> (a: Actor) {
        Actor::User(self.following_id)
    }
}

/// A user stopped following another user; the followed user is the event's actor.
#[derive(Debug, Clone, Copy, PartialEq, Eq, Structural)]
pub struct UserUnfollowedEvent {
    pub follower_id: Id,
    pub following_id: Id,
    pub timestamp: DateTime,
}

impl Event for UserUnfollowedEvent {
    open spec fn spec_event_type(&self) -> EventType {
        EventType::UserUnfollowed
    }

    open spec fn spec_timestamp(&self) -> DateTime {
        self.timestamp
    }

    open spec fn spec_event_actor(&self) -> Actor {
        Actor::User(self.following_id)
    }

    fn event_type(&self) -> (t: EventType) {
        EventType::UserUnfollowed
    }

    fn timestamp(&self) -> (t: DateTime) {
        self.timestamp
    }

    fn actor(&self) -> (a: Actor) {
        Actor::User(self.following_id)
    }
}

/// Every event tells its own kind and time; the acting user is the one the
/// event names as actor, the author for creations, forks, likes and
/// dislikes, and the followed user for follows and unfollows.
pub proof fn lemma_events_tell_kind_time_and_actor(
    submitted: ForkSubmittedEvent,
    created: FragmentCreatedEvent,
    disliked: FragmentDislikedEvent,
    forked: FragmentForkedEvent,
    published: FragmentPublishedEvent,
    updated: FragmentUpdatedEvent,
    reviewed: FragmentForkReviewedEvent,
    liked: FragmentLikedEvent,
    followed: UserFollowedEvent,
    unfollowed: UserUnfollowedEvent,
)
    ensures
        submitted.spec_event_type() == EventType::ForkSubmitted,
        submitted.spec_timestamp() == submitted.timestamp,
        submitted.spec_event_actor() == submitted.actor,
        created.spec_event_type() == EventType::FragmentCreated,
        created.spec_timestamp() == created.timestamp,
        created.spec_event_actor() == Actor::User(created.user_id),
        disliked.spec_event_type() == EventType::FragmentDisliked,
        disliked.spec_timestamp() == disliked.timestamp,
        disliked.spec_event_actor() == Actor::User(disliked.user_id),
        forked.spec_event_type() == EventType::FragmentForked,
        forked.spec_timestamp() == forked.timestamp,
        forked.spec_event_actor() == Actor::User(forked.user_id),
        published.spec_event_type() == EventType::FragmentPublished,
        published.spec_timestamp() == published.timestamp,
        published.spec_event_actor() == published.actor,
        updated.spec_event_type() == EventType::FragmentUpdated,
        updated.spec_timestamp() == updated.timestamp,
        updated.spec_event_actor() == updated.actor,
        reviewed.spec_event_type() == EventType::FragmentForkReviewed,
        reviewed.spec_timestamp() == reviewed.timestamp,
        reviewed.spec_event_actor() == reviewed.actor,
        liked.spec_event_type() == EventType::FragmentLiked,
        liked.spec_timestamp() == liked.timestamp,
        liked.spec_event_actor() == Actor::User(liked.user_id),
        followed.spec_event_type() == EventType::UserFollowed,
        followed.spec_timestamp() == followed.timestamp,
        followed.spec_event_actor() == Actor::User(followed.following_id),
        unfollowed.spec_event_type() == EventType::UserUnfollowed,
        unfollowed.spec_timestamp() == unfollowed.timestamp,
        unfollowed.spec_event_actor() == Actor::User(unfollowed.following_id),
{
}

} // verus!
