use vstd::prelude::*;
use crate::command_bus::command::Command;
use crate::command_bus::error::CommandBusError;
use crate::command_bus::handler::{HandlerStep, StoreCall, StoreReply};
use crate::commons::actor::{Actor, ActorTrait};
use crate::commons::clock::DateTime;
use crate::commons::commands::CommandType;
use crate::commons::id::Id;
use crate::events::FragmentDislikedEvent;
use crate::storage::model::fragment::{Fragment, FragmentState};

verus! {

/// Take back the acting user's like of a published fragment.
#[derive(Debug, Clone, Copy, PartialEq, Eq, Structural)]
pub struct DislikeFragmentCommand {
    pub fragment_id: Id,
}

/// Why a dislike was refused.
#[derive(Debug, Clone, Copy, PartialEq, Eq, Structural)]
pub enum DislikeFragmentCommandError {
    FragmentNotFound(Id),
    FragmentNotPublished(Id),
}

impl DislikeFragmentCommand {
    pub fn new(fragment_id: Id) -> (c: DislikeFragmentCommand)
        ensures
            c.fragment_id == fragment_id,
    {
        DislikeFragmentCommand { fragment_id }
    }

    /// The first decision, on the fragment that the store holds under the
    /// command's id: it must exist and be published. On success the like of
    /// that fragment by the user is looked up next.
    pub open spec fn spec_check(self, found: Option<Fragment>) -> Result<Fragment, DislikeFragmentCommandError> {
        match found {
            None => Err(DislikeFragmentCommandError::FragmentNotFound(self.fragment_id)),
            Some(f) => if f.state == FragmentState::Published {
                Ok(f)
            } else {
                Err(DislikeFragmentCommandError::FragmentNotPublished(self.fragment_id))
            },
        }
    }

    pub fn check(&self, found: Option<Fragment>) -> (r: Result<Fragment, DislikeFragmentCommandError>)
        ensures
            r == self.spec_check(found),
            found is None ==> r == Err::<Fragment, _>(
                DislikeFragmentCommandError::FragmentNotFound(self.fragment_id),
            ),
            found matches Some(f) ==> (if f.state == FragmentState::Published {
                r == Ok::<_, DislikeFragmentCommandError>(f)
            } else {
                r == Err::<Fragment, _>(DislikeFragmentCommandError::FragmentNotPublished(self.fragment_id))
            }),
    {
        match found {
            None => Err(DislikeFragmentCommandError::FragmentNotFound(self.fragment_id)),
            Some(f) => if f.is_published() {
                Ok(f)
            } else {
                Err(DislikeFragmentCommandError::FragmentNotPublished(self.fragment_id))
            },
        }
    }

    /// The event, given what became of the user's like: `None` when there
    /// was no like, `Some(deleted)` with the store's report of its deletion.
    /// An event is logged only when a like was deleted; it is dated `now`.
    pub open spec fn spec_outcome(self, user: Id, removed: Option<bool>, now: DateTime) -> Option<FragmentDislikedEvent> {
        if removed == Some(true) {
            Some(FragmentDislikedEvent { fragment_id: self.fragment_id, timestamp: now, user_id: user })
        } else {
            None
        }
    }

    pub fn outcome(&self, user: Id, removed: Option<bool>, now: DateTime) -> (r: Option<FragmentDislikedEvent>)
        ensures
            r == self.spec_outcome(user, removed, now),
            r is Some <==> removed == Some(true),
            r matches Some(e) ==> e == (FragmentDislikedEvent {
                fragment_id: self.fragment_id,
                timestamp: now,
                user_id: user,
            }),
    {
        match removed {
            Some(true) => Some(
                FragmentDislikedEvent { fragment_id: self.fragment_id, timestamp: now, user_id: user },
            ),
            _ => None,
        }
    }
}

/// Where the dislike handler stands between its store calls.
#[derive(Debug)]
pub enum DislikeStage {
    /// The fragment under the command's id was asked for.
    FindingFragment,
    /// The user's like of the checked fragment (by its id) was asked for.
    FindingLike(Id),
    /// The found like was handed to the store to delete.
    DeletingLike,
}

impl DislikeFragmentCommand {
    /// The handler's first call: the fragment under the command's id.
    pub fn start(&self) -> (s: HandlerStep<DislikeStage, FragmentDislikedEvent>)
        ensures
            s == HandlerStep::<DislikeStage, FragmentDislikedEvent>::Call(
                DislikeStage::FindingFragment,
                StoreCall::FindFragment(self.fragment_id),
            ),
    {
        HandlerStep::Call(DislikeStage::FindingFragment, StoreCall::FindFragment(self.fragment_id))
    }

    /// The handler's move after a reply: check the fragment, then read the
    /// user's like of it, then delete that like (if any), and report the
    /// event from what the deletion removed.
    pub open spec fn spec_resume(self, user: Id, now: DateTime, stage: DislikeStage, reply: StoreReply) -> HandlerStep<
        DislikeStage,
        FragmentDislikedEvent,
    > {
        match (stage, reply) {
            (DislikeStage::FindingFragment, StoreReply::Fragment(found)) => match self.spec_check(found) {
                Err(e) => HandlerStep::Done(Err(CommandBusError::DislikeFragmentCommand(e))),
                Ok(f) => HandlerStep::Call(DislikeStage::FindingLike(f.id), StoreCall::FindLike(f.id, user)),
            },
            (DislikeStage::FindingLike(fragment_id), StoreReply::Like(existing)) => match existing {
                None => HandlerStep::Done(Ok(self.spec_outcome(user, None, now))),
                Some(l) => if l.fragment_id != fragment_id || l.user_id != user {
                    HandlerStep::Done(Err(CommandBusError::UnexpectedReply))
                } else {
                    HandlerStep::Call(DislikeStage::DeletingLike, StoreCall::DeleteLike(l))
                },
            },
            (DislikeStage::DeletingLike, StoreReply::Deleted(removed)) => HandlerStep::Done(
                Ok(self.spec_outcome(user, Some(removed), now)),
            ),
            _ => HandlerStep::Done(Err(CommandBusError::UnexpectedReply)),
        }
    }

    pub fn resume(&self, user: Id, now: DateTime, stage: DislikeStage, reply: StoreReply) -> (s: HandlerStep<
        DislikeStage,
        FragmentDislikedEvent,
    >)
        ensures
            s == self.spec_resume(user, now, stage, reply),
    {
        match (stage, reply) {
            (DislikeStage::FindingFragment, StoreReply::Fragment(found)) => match self.check(found) {
                Err(e) => HandlerStep::Done(Err(CommandBusError::DislikeFragmentCommand(e))),
                Ok(f) => {
                    let id = f.id();
                    HandlerStep::Call(DislikeStage::FindingLike(id), StoreCall::FindLike(id, user))
                },
            },
            (DislikeStage::FindingLike(fragment_id), StoreReply::Like(existing)) => match existing {
                None => HandlerStep::Done(Ok(self.outcome(user, None, now))),
                Some(l) => if l.fragment_id != fragment_id || l.user_id != user {
                    HandlerStep::Done(Err(CommandBusError::UnexpectedReply))
                } else {
                    HandlerStep::Call(DislikeStage::DeletingLike, StoreCall::DeleteLike(l))
                },
            },
            (DislikeStage::DeletingLike, StoreReply::Deleted(removed)) => HandlerStep::Done(
                Ok(self.outcome(user, Some(removed), now)),
            ),
            _ => HandlerStep::Done(Err(CommandBusError::UnexpectedReply)),
        }
    }
}

impl Command for DislikeFragmentCommand {
    type Event = FragmentDislikedEvent;

    /// The handler files dislikes under the like command's type.
    open spec fn spec_command_type(&self) -> CommandType {
        CommandType::LikeFragment
    }

    /// Only users dislike fragments.
    open spec fn spec_supports(&self, actor: Actor) -> bool {
        actor is User
    }

    fn command_type(&self) -> (t: CommandType) {
        CommandType::LikeFragment
    }

    fn supports<A: ActorTrait>(&self, actor: &A) -> (b: bool) {
        actor.actor().is_user()
    }
}

} // verus!
