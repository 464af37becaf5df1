use vstd::prelude::*;
use crate::command_bus::command::Command;
use crate::command_bus::error::CommandBusError;
use crate::command_bus::handler::{HandlerStep, StoreCall, StoreReply};
use crate::commons::actor::{Actor, ActorTrait};
use crate::commons::clock::DateTime;
use crate::commons::commands::CommandType;
use crate::commons::id::Id;
use crate::events::UserFollowedEvent;
use crate::storage::model::follow::Follow;

verus! {

/// Follow another user as the acting user.
#[derive(Debug, Clone, Copy, PartialEq, Eq, Structural)]
pub struct FollowUserCommand {
    pub following_user_id: Id,
}

impl FollowUserCommand {
    pub fn new(following_user_id: Id) -> (c: FollowUserCommand)
        ensures
            c.following_user_id == following_user_id,
    {
        FollowUserCommand { following_user_id }
    }

    /// The follow to write, given the store's follow of the command's user by
    /// `user`: none when `user` already follows them, else a follow by `user`,
    /// made now.
    pub open spec fn spec_plan(self, user: Id, existing: Option<Follow>, now: DateTime) -> Option<Follow> {
        match existing {
            Some(_) => None,
            None => Some(
                Follow { follower_id: user, following_id: self.following_user_id, created_at: now },
            ),
        }
    }

    pub fn plan(&self, user: Id, existing: Option<Follow>, now: DateTime) -> (r: Option<Follow>)
        requires
            existing matches Some(f) ==> f.follower_id == user && f.following_id
                == self.following_user_id,
        ensures
            r == self.spec_plan(user, existing, now),
            r is Some <==> existing is None,
            r matches Some(f) ==> f == (Follow {
                follower_id: user,
                following_id: self.following_user_id,
                created_at: now,
            }),
    {
        match existing {
            Some(_) => None,
            None => Some(
                Follow { follower_id: user, following_id: self.following_user_id, created_at: now },
            ),
        }
    }
}

/// Where the follow handler stands between its store calls.
#[derive(Debug)]
pub enum FollowStage {
    /// The user's follow of the command's user was asked for.
    FindingFollow,
    /// The planned follow was handed to the store.
    SavingFollow,
}

impl FollowUserCommand {
    /// The handler's first call: the follow of the command's user by `user`.
    pub fn start(&self, user: Id) -> (s: HandlerStep<FollowStage, UserFollowedEvent>)
        ensures
            s == HandlerStep::<FollowStage, UserFollowedEvent>::Call(
                FollowStage::FindingFollow,
                StoreCall::FindFollow(user, self.following_user_id),
            ),
    {
        HandlerStep::Call(FollowStage::FindingFollow, StoreCall::FindFollow(user, self.following_user_id))
    }

    /// The handler's move after a reply: save the planned follow (if any),
    /// and report the event of the follow as the store saved it.
    pub open spec fn spec_resume(self, user: Id, now: DateTime, stage: FollowStage, reply: StoreReply) -> HandlerStep<
        FollowStage,
        UserFollowedEvent,
    > {
        match (stage, reply) {
            (FollowStage::FindingFollow, StoreReply::Follow(existing)) => if existing matches Some(f) && (
            f.follower_id != user || f.following_id != self.following_user_id) {
                HandlerStep::Done(Err(CommandBusError::UnexpectedReply))
            } else {
                match self.spec_plan(user, existing, now) {
                    None => HandlerStep::Done(Ok(None)),
                    Some(f) => HandlerStep::Call(FollowStage::SavingFollow, StoreCall::SaveFollow(f)),
                }
            },
            (FollowStage::SavingFollow, StoreReply::SavedFollow(saved)) => HandlerStep::Done(
                Ok(
                    Some(
                        UserFollowedEvent {
                            follower_id: saved.follower_id,
                            following_id: saved.following_id,
                            timestamp: saved.created_at,
                        },
                    ),
                ),
            ),
            _ => HandlerStep::Done(Err(CommandBusError::UnexpectedReply)),
        }
    }

    pub fn resume(&self, user: Id, now: DateTime, stage: FollowStage, reply: StoreReply) -> (s: HandlerStep<
        FollowStage,
        UserFollowedEvent,
    >)
        ensures
            s == self.spec_resume(user, now, stage, reply),
    {
        match (stage, reply) {
            (FollowStage::FindingFollow, StoreReply::Follow(existing)) => {
                if let Some(f) = existing {
                    if f.follower_id != user || f.following_id != self.following_user_id {
                        return HandlerStep::Done(Err(CommandBusError::UnexpectedReply));
                    }
                }
                match self.plan(user, existing, now) {
                    None => HandlerStep::Done(Ok(None)),
                    Some(f) => HandlerStep::Call(FollowStage::SavingFollow, StoreCall::SaveFollow(f)),
                }
            },
            (FollowStage::SavingFollow, StoreReply::SavedFollow(saved)) => HandlerStep::Done(
                Ok(Some(UserFollowedEvent::from_follow(saved))),
            ),
            _ => HandlerStep::Done(Err(CommandBusError::UnexpectedReply)),
        }
    }
}

impl UserFollowedEvent {
    /// The event for a written follow.
    pub fn from_follow(value: Follow) -> (e: UserFollowedEvent)
        ensures
            e == (UserFollowedEvent {
                follower_id: value.follower_id,
                following_id: value.following_id,
                timestamp: value.created_at,
            }),
    {
        UserFollowedEvent {
            follower_id: value.follower_id,
            following_id: value.following_id,
            timestamp: value.created_at,
        }
    }
}

impl Command for FollowUserCommand {
    type Event = UserFollowedEvent;

    open spec fn spec_command_type(&self) -> CommandType {
        CommandType::FollowUser
    }

    /// Only users follow users.
    open spec fn spec_supports(&self, actor: Actor) -> bool {
        actor is User
    }

    fn command_type(&self) -> (t: CommandType) {
        CommandType::FollowUser
    }

    fn supports<A: ActorTrait>(&self, actor: &A) -> (b: bool) {
        actor.actor().is_user()
    }
}

} // verus!
