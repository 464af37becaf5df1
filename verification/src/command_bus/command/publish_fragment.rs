use vstd::prelude::*;
use crate::command_bus::command::Command;
use crate::command_bus::error::CommandBusError;
use crate::command_bus::handler::{HandlerStep, StoreCall, StoreReply, WriteStage};
use crate::commons::actor::{Actor, ActorTrait, ActorType};
use crate::commons::clock::DateTime;
use crate::commons::commands::CommandType;
use crate::commons::id::Id;
use crate::events::FragmentPublishedEvent;
use crate::storage::model::fragment::{Fragment, FragmentState};

verus! {

/// Publish one's own fragment: a root from its draft, a fork once approved.
#[derive(Debug, Clone, Copy, PartialEq, Eq, Structural)]
pub struct PublishFragmentCommand {
    pub fragment_id: Id,
}

/// Why a publication was refused.
#[derive(Debug, Clone, Copy, PartialEq, Eq)]
pub enum PublishFragmentCommandError {
    FragmentNotFound(Id),
    InvalidState(&'static str),
    Forbidden(&'static str),
}

impl PublishFragmentCommand {
    pub fn new(fragment_id: Id) -> (c: PublishFragmentCommand)
        ensures
            c.fragment_id == fragment_id,
    {
        PublishFragmentCommand { fragment_id }
    }

    /// Why a fragment of the user's own, in state `state`, cannot be
    /// published, or `None` when it can.
    pub open spec fn spec_refusal(state: FragmentState, fork: bool) -> Option<&'static str> {
        match (state, fork) {
            (FragmentState::Draft, false) => None,
            (FragmentState::Approved, true) => None,
            (FragmentState::Draft, true) => Some("forks need to be aprovved to be published"),
            (FragmentState::Published, _) => Some("fragment is already published"),
            (_, true) => Some("Fork can not be published"),
            (_, false) => Some("Fragment can not be published"),
        }
    }

    /// The decision: the fragment must exist, belong to the user and be
    /// publishable; the written fragment is published and was last modified now.
    pub open spec fn spec_plan(self, user: Id, found: Option<Fragment>, now: DateTime) -> Result<
        Fragment,
        PublishFragmentCommandError,
    > {
        match found {
            None => Err(PublishFragmentCommandError::FragmentNotFound(self.fragment_id)),
            Some(f) => if f.author_id != user {
                Err(PublishFragmentCommandError::Forbidden("Only the fragment author can publish it"))
            } else {
                match Self::spec_refusal(f.state, f.spec_is_fork()) {
                    Some(reason) => Err(PublishFragmentCommandError::InvalidState(reason)),
                    None => Ok(
                        Fragment { state: FragmentState::Published, last_modified_at: now, ..f },
                    ),
                }
            },
        }
    }

    /// Decides the publication of `found`, the fragment that the store holds
    /// under the command's id, by `user` at time `now`: the fragment to write,
    /// or why the publication is refused.
    pub fn plan(&self, user: Id, found: Option<Fragment>, now: DateTime) -> (r: Result<
        Fragment,
        PublishFragmentCommandError,
    >)
        ensures
            r == self.spec_plan(user, found, now),
            r is Ok <==> (found matches Some(f) && f.author_id == user && f.spec_is_publishable()),
    {
        match found {
            None => Err(PublishFragmentCommandError::FragmentNotFound(self.fragment_id)),
            Some(f) => {
                if !f.is_author(user) {
                    return Err(
                        PublishFragmentCommandError::Forbidden(
                            "Only the fragment author can publish it",
                        ),
                    );
                }
                let refusal: Option<&'static str> = match (f.state(), f.is_fork()) {
                    (FragmentState::Draft, false) => None,
                    (FragmentState::Approved, true) => None,
                    (FragmentState::Draft, true) => Some("forks need to be aprovved to be published"),
                    (FragmentState::Published, _) => Some("fragment is already published"),
                    (_, true) => Some("Fork can not be published"),
                    (_, false) => Some("Fragment can not be published"),
                };
                match refusal {
                    Some(reason) => Err(PublishFragmentCommandError::InvalidState(reason)),
                    None => Ok(f.set_state(FragmentState::Published).set_last_modified_at(now)),
                }
            },
        }
    }
}

impl PublishFragmentCommand {
    /// The handler's first call: the fragment under the command's id.
    pub fn start(&self) -> (s: HandlerStep<WriteStage, FragmentPublishedEvent>)
        ensures
            s == HandlerStep::<WriteStage, FragmentPublishedEvent>::Call(
                WriteStage::Finding,
                StoreCall::FindFragment(self.fragment_id),
            ),
    {
        HandlerStep::Call(WriteStage::Finding, StoreCall::FindFragment(self.fragment_id))
    }

    /// The handler's move after a reply: decide on the fragment read under
    /// the command's id, write the decided fragment, and report the event of
    /// the fragment as the store wrote it.
    pub open spec fn spec_resume(self, user: Id, now: DateTime, stage: WriteStage, reply: StoreReply) -> HandlerStep<
        WriteStage,
        FragmentPublishedEvent,
    > {
        match (stage, reply) {
            (WriteStage::Finding, StoreReply::Fragment(found)) => match self.spec_plan(user, found, now) {
                Err(e) => HandlerStep::Done(Err(CommandBusError::PublishFragmentCommand(e))),
                Ok(f) => HandlerStep::Call(WriteStage::Writing, StoreCall::UpdateFragment(f)),
            },
            (WriteStage::Writing, StoreReply::Saved(value)) => HandlerStep::Done(Ok(Some(FragmentPublishedEvent { fragment_id: value.id, timestamp: value.last_modified_at, actor: Actor::User(value.author_id) }))),
            _ => HandlerStep::Done(Err(CommandBusError::UnexpectedReply)),
        }
    }

    pub fn resume(&self, user: Id, now: DateTime, stage: WriteStage, reply: StoreReply) -> (s: HandlerStep<
        WriteStage,
        FragmentPublishedEvent,
    >)
        ensures
            s == self.spec_resume(user, now, stage, reply),
    {
        match (stage, reply) {
            (WriteStage::Finding, StoreReply::Fragment(found)) => match self.plan(user, found, now) {
                Err(e) => HandlerStep::Done(Err(CommandBusError::PublishFragmentCommand(e))),
                Ok(f) => HandlerStep::Call(WriteStage::Writing, StoreCall::UpdateFragment(f)),
            },
            (WriteStage::Writing, StoreReply::Saved(value)) => HandlerStep::Done(
                Ok(Some(FragmentPublishedEvent::from_fragment(value))),
            ),
            _ => HandlerStep::Done(Err(CommandBusError::UnexpectedReply)),
        }
    }
}

impl FragmentPublishedEvent {
    /// The event for a published fragment, acted by its author at its last
    /// modification time.
    pub fn from_fragment(value: Fragment) -> (e: FragmentPublishedEvent)
        ensures
            e == (FragmentPublishedEvent {
                fragment_id: value.id,
                timestamp: value.last_modified_at,
                actor: Actor::User(value.author_id),
            }),
    {
        FragmentPublishedEvent {
            fragment_id: value.id,
            timestamp: value.last_modified_at,
            actor: Actor::User(value.author_id),
        }
    }
}

impl Command for PublishFragmentCommand {
    type Event = FragmentPublishedEvent;

    open spec fn spec_command_type(&self) -> CommandType {
        CommandType::PublishFragment
    }

    /// Only users publish fragments.
    open spec fn spec_supports(&self, actor: Actor) -> bool {
        actor.spec_actor_type() == ActorType::User
    }

    fn command_type(&self) -> (t: CommandType) {
        CommandType::PublishFragment
    }

    fn supports<A: ActorTrait>(&self, actor: &A) -> (b: bool) {
        actor.actor_type() == ActorType::User
    }
}

} // verus!
