use vstd::prelude::*;
use crate::command_bus::command::Command;
use crate::command_bus::error::CommandBusError;
use crate::command_bus::handler::{HandlerStep, StoreCall, StoreReply, WriteStage};
use crate::commons::actor::{Actor, ActorTrait, ActorType};
use crate::commons::clock::DateTime;
use crate::commons::commands::CommandType;
use crate::commons::id::Id;
use crate::events::ForkSubmittedEvent;
use crate::storage::model::fragment::{Fragment, FragmentState};

verus! {

/// Submit one's own draft fork for review by the parent's author.
#[derive(Debug, Clone, Copy, PartialEq, Eq, Structural)]
pub struct SubmitForkCommand {
    pub fragment_id: Id,
}

/// Why a submission was refused.
#[derive(Debug, Clone, Copy, PartialEq, Eq)]
pub enum SubmitForkCommandError {
    ForkNotFound(Id),
    Forbidden(&'static str),
    InvalidState(&'static str),
}

impl SubmitForkCommand {
    pub fn new(fragment_id: Id) -> (c: SubmitForkCommand)
        ensures
            c.fragment_id == fragment_id,
    {
        SubmitForkCommand { fragment_id }
    }

    /// The decision: the fragment must exist, belong to the user, and be
    /// submittable (a draft fork); the written fork is submitted and was last
    /// modified now.
    pub open spec fn spec_plan(self, user: Id, found: Option<Fragment>, now: DateTime) -> Result<
        Fragment,
        SubmitForkCommandError,
    > {
        match found {
            None => Err(SubmitForkCommandError::ForkNotFound(self.fragment_id)),
            Some(f) => if f.author_id != user {
                Err(SubmitForkCommandError::Forbidden("Only the fork author can submit it"))
            } else if !f.spec_is_submittable() {
                Err(SubmitForkCommandError::InvalidState("Fork can not be submitted"))
            } else {
                Ok(Fragment { state: FragmentState::Submitted, last_modified_at: now, ..f })
            },
        }
    }

    /// Decides the submission of `found`, the fragment that the store holds
    /// under the command's id, by `user` at time `now`.
    pub fn plan(&self, user: Id, found: Option<Fragment>, now: DateTime) -> (r: Result<
        Fragment,
        SubmitForkCommandError,
    >)
        ensures
            r == self.spec_plan(user, found, now),
            r is Ok <==> (found matches Some(f) && f.author_id == user && f.spec_is_submittable()),
    {
        match found {
            None => Err(SubmitForkCommandError::ForkNotFound(self.fragment_id)),
            Some(f) => {
                if !f.is_author(user) {
                    return Err(SubmitForkCommandError::Forbidden("Only the fork author can submit it"));
                }
                if !f.is_submittable() {
                    return Err(SubmitForkCommandError::InvalidState("Fork can not be submitted"));
                }
                Ok(f.set_state(FragmentState::Submitted).set_last_modified_at(now))
            },
        }
    }
}

impl SubmitForkCommand {
    /// The handler's first call: the fragment under the command's id.
    pub fn start(&self) -> (s: HandlerStep<WriteStage, ForkSubmittedEvent>)
        ensures
            s == HandlerStep::<WriteStage, ForkSubmittedEvent>::Call(
                WriteStage::Finding,
                StoreCall::FindFragment(self.fragment_id),
            ),
    {
        HandlerStep::Call(WriteStage::Finding, StoreCall::FindFragment(self.fragment_id))
    }

    /// The handler's move after a reply: decide on the fragment read under
    /// the command's id, write the decided fragment, and report the event of
    /// the fragment as the store wrote it.
    pub open spec fn spec_resume(self, user: Id, now: DateTime, stage: WriteStage, reply: StoreReply) -> HandlerStep<
        WriteStage,
        ForkSubmittedEvent,
    > {
        match (stage, reply) {
            (WriteStage::Finding, StoreReply::Fragment(found)) => match self.spec_plan(user, found, now) {
                Err(e) => HandlerStep::Done(Err(CommandBusError::SubmitForkCommand(e))),
                Ok(f) => HandlerStep::Call(WriteStage::Writing, StoreCall::UpdateFragment(f)),
            },
            (WriteStage::Writing, StoreReply::Saved(value)) => HandlerStep::Done(Ok(Some(ForkSubmittedEvent { fragment_id: value.id, timestamp: value.last_modified_at, actor: Actor::User(value.author_id) }))),
            _ => HandlerStep::Done(Err(CommandBusError::UnexpectedReply)),
        }
    }

    pub fn resume(&self, user: Id, now: DateTime, stage: WriteStage, reply: StoreReply) -> (s: HandlerStep<
        WriteStage,
        ForkSubmittedEvent,
    >)
        ensures
            s == self.spec_resume(user, now, stage, reply),
    {
        match (stage, reply) {
            (WriteStage::Finding, StoreReply::Fragment(found)) => match self.plan(user, found, now) {
                Err(e) => HandlerStep::Done(Err(CommandBusError::SubmitForkCommand(e))),
                Ok(f) => HandlerStep::Call(WriteStage::Writing, StoreCall::UpdateFragment(f)),
            },
            (WriteStage::Writing, StoreReply::Saved(value)) => HandlerStep::Done(
                Ok(Some(ForkSubmittedEvent::from_fragment(value))),
            ),
            _ => HandlerStep::Done(Err(CommandBusError::UnexpectedReply)),
        }
    }
}

impl ForkSubmittedEvent {
    /// The event for a submitted fork, acted by its author at its last
    /// modification time.
    pub fn from_fragment(value: Fragment) -> (e: ForkSubmittedEvent)
        ensures
            e == (ForkSubmittedEvent {
                fragment_id: value.id,
                timestamp: value.last_modified_at,
                actor: Actor::User(value.author_id),
            }),
    {
        ForkSubmittedEvent {
            fragment_id: value.id,
            timestamp: value.last_modified_at,
            actor: Actor::User(value.author_id),
        }
    }
}

impl Command for SubmitForkCommand {
    type Event = ForkSubmittedEvent;

    open spec fn spec_command_type(&self) -> CommandType {
        CommandType::SubmitFork
    }

    /// Only users submit forks.
    open spec fn spec_supports(&self, actor: Actor) -> bool {
        actor.spec_actor_type() == ActorType::User
    }

    fn command_type(&self) -> (t: CommandType) {
        CommandType::SubmitFork
    }

    fn supports<A: ActorTrait>(&self, actor: &A) -> (b: bool) {
        actor.actor_type() == ActorType::User
    }
}

} // verus!
