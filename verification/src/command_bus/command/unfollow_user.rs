use vstd::prelude::*;
use crate::command_bus::command::Command;
use crate::command_bus::error::CommandBusError;
use crate::command_bus::handler::{HandlerStep, StoreCall, StoreReply};
use crate::commons::actor::{Actor, ActorTrait};
use crate::commons::commands::CommandType;
use crate::commons::id::Id;
use crate::events::UserUnfollowedEvent;
use crate::storage::model::follow::Follow;

verus! {

/// Stop following another user as the acting user.
#[derive(Debug, Clone, Copy, PartialEq, Eq, Structural)]
pub struct UnfollowUserCommand {
    pub following_user_id: Id,
}

impl UnfollowUserCommand {
    pub fn new(following_user_id: Id) -> (c: UnfollowUserCommand)
        ensures
            c.following_user_id == following_user_id,
    {
        UnfollowUserCommand { following_user_id }
    }

    /// The event, given the follow that the store held (`found`) and whether
    /// the store reports it deleted: an event only when a follow was found and
    /// deleted, dated with the follow's creation time.
    pub open spec fn spec_outcome(self, user: Id, found: Option<Follow>, deleted: bool) -> Option<UserUnfollowedEvent> {
        match found {
            Some(f) => if deleted {
                Some(
                    UserUnfollowedEvent {
                        follower_id: user,
                        following_id: self.following_user_id,
                        timestamp: f.created_at,
                    },
                )
            } else {
                None
            },
            None => None,
        }
    }

    /// Decides the event of the unfollowing by `user`; `found` is the store's
    /// follow of the command's user by `user`.
    pub fn outcome(&self, user: Id, found: Option<Follow>, deleted: bool) -> (r: Option<UserUnfollowedEvent>)
        requires
            found matches Some(f) ==> f.follower_id == user && f.following_id
                == self.following_user_id,
        ensures
            r == self.spec_outcome(user, found, deleted),
            r is Some <==> (found is Some && deleted),
            r matches Some(e) ==> e == (UserUnfollowedEvent {
                follower_id: user,
                following_id: self.following_user_id,
                timestamp: found->Some_0.created_at,
            }),
    {
        match found {
            Some(f) => if deleted {
                Some(
                    UserUnfollowedEvent {
                        follower_id: user,
                        following_id: self.following_user_id,
                        timestamp: f.created_at,
                    },
                )
            } else {
                None
            },
            None => None,
        }
    }
}

/// Where the unfollow handler stands between its store calls.
#[derive(Debug)]
pub enum UnfollowStage {
    /// The user's follow of the command's user was asked for.
    FindingFollow,
    /// The found follow was handed to the store to delete.
    DeletingFollow(Follow),
}

impl UnfollowUserCommand {
    /// The handler's first call: the follow of the command's user by `user`.
    pub fn start(&self, user: Id) -> (s: HandlerStep<UnfollowStage, UserUnfollowedEvent>)
        ensures
            s == HandlerStep::<UnfollowStage, UserUnfollowedEvent>::Call(
                UnfollowStage::FindingFollow,
                StoreCall::FindFollow(user, self.following_user_id),
            ),
    {
        HandlerStep::Call(UnfollowStage::FindingFollow, StoreCall::FindFollow(user, self.following_user_id))
    }

    /// The handler's move after a reply: delete the found follow (if any),
    /// and report the event from what the deletion removed.
    pub open spec fn spec_resume(self, user: Id, stage: UnfollowStage, reply: StoreReply) -> HandlerStep<
        UnfollowStage,
        UserUnfollowedEvent,
    > {
        match (stage, reply) {
            (UnfollowStage::FindingFollow, StoreReply::Follow(found)) => match found {
                None => HandlerStep::Done(Ok(self.spec_outcome(user, None, false))),
                Some(f) => if f.follower_id != user || f.following_id != self.following_user_id {
                    HandlerStep::Done(Err(CommandBusError::UnexpectedReply))
                } else {
                    HandlerStep::Call(UnfollowStage::DeletingFollow(f), StoreCall::DeleteFollow(f))
                },
            },
            (UnfollowStage::DeletingFollow(f), StoreReply::Deleted(deleted)) => if f.follower_id != user
                || f.following_id != self.following_user_id {
                HandlerStep::Done(Err(CommandBusError::UnexpectedReply))
            } else {
                HandlerStep::Done(Ok(self.spec_outcome(user, Some(f), deleted)))
            },
            _ => HandlerStep::Done(Err(CommandBusError::UnexpectedReply)),
        }
    }

    pub fn resume(&self, user: Id, stage: UnfollowStage, reply: StoreReply) -> (s: HandlerStep<
        UnfollowStage,
        UserUnfollowedEvent,
    >)
        ensures
            s == self.spec_resume(user, stage, reply),
    {
        match (stage, reply) {
            (UnfollowStage::FindingFollow, StoreReply::Follow(found)) => match found {
                None => HandlerStep::Done(Ok(self.outcome(user, None, false))),
                Some(f) => if f.follower_id != user || f.following_id != self.following_user_id {
                    HandlerStep::Done(Err(CommandBusError::UnexpectedReply))
                } else {
                    HandlerStep::Call(UnfollowStage::DeletingFollow(f), StoreCall::DeleteFollow(f))
                },
            },
            (UnfollowStage::DeletingFollow(f), StoreReply::Deleted(deleted)) => if f.follower_id != user
                || f.following_id != self.following_user_id {
                HandlerStep::Done(Err(CommandBusError::UnexpectedReply))
            } else {
                HandlerStep::Done(Ok(self.outcome(user, Some(f), deleted)))
            },
            _ => HandlerStep::Done(Err(CommandBusError::UnexpectedReply)),
        }
    }
}

impl Command for UnfollowUserCommand {
    type Event = UserUnfollowedEvent;

    open spec fn spec_command_type(&self) -> CommandType {
        CommandType::UnfollowUser
    }

    /// Only users unfollow users.
    open spec fn spec_supports(&self, actor: Actor) -> bool {
        actor is User
    }

    fn command_type(&self) -> (t: CommandType) {
        CommandType::UnfollowUser
    }

    fn supports<A: ActorTrait>(&self, actor: &A) -> (b: bool) {
        actor.actor().is_user()
    }
}

} // verus!
