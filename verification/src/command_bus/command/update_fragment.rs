use vstd::prelude::*;
use crate::command_bus::command::Command;
use crate::command_bus::error::CommandBusError;
use crate::command_bus::handler::{HandlerStep, StoreCall, StoreReply, WriteStage};
use crate::commons::actor::{Actor, ActorTrait, ActorType};
use crate::commons::clock::DateTime;
use crate::commons::commands::CommandType;
use crate::commons::fragment::Content;
use crate::commons::id::Id;
use crate::events::FragmentUpdatedEvent;
use crate::storage::model::fragment::Fragment;

verus! {

/// Replace a draft's text and end mark.
#[derive(Debug)]
pub struct UpdateFragmentCommand {
    pub fragment_id: Id,
    pub content: Content,
    pub end: bool,
}

/// Why an update was refused.
#[derive(Debug, Clone, Copy, PartialEq, Eq, Structural)]
pub enum UpdateFragmentCommandError {
    FragmentNotFound(Id),
    UserWithoutPermission(Id),
    NonEditableFragment(Id),
    NonEndabledFragment(Id),
}

impl UpdateFragmentCommand {
    pub fn new(fragment_id: Id, content: Content, end: bool) -> (c: UpdateFragmentCommand)
        ensures
            c == (UpdateFragmentCommand { fragment_id, content, end }),
    {
        UpdateFragmentCommand { fragment_id, content, end }
    }

    pub fn fragment_id(&self) -> (id: Id)
        ensures
            id == self.fragment_id,
    {
        self.fragment_id
    }

    pub fn content(&self) -> (c: &Content)
        ensures
            *c == self.content,
    {
        &self.content
    }

    pub fn end(&self) -> (e: bool)
        ensures
            e == self.end,
    {
        self.end
    }

    /// The decision: the fragment must exist, be a draft, and belong to the
    /// user; the written fragment has the new text and end mark and was last
    /// modified now.
    pub open spec fn spec_plan(self, user: Id, found: Option<Fragment>, now: DateTime) -> Result<
        Fragment,
        UpdateFragmentCommandError,
    > {
        match found {
            None => Err(UpdateFragmentCommandError::FragmentNotFound(self.fragment_id)),
            Some(f) => if !f.spec_is_editable() {
                Err(UpdateFragmentCommandError::NonEditableFragment(self.fragment_id))
            } else if f.author_id != user {
                Err(UpdateFragmentCommandError::UserWithoutPermission(user))
            } else {
                Ok(Fragment { content: self.content, last_modified_at: now, end: self.end, ..f })
            },
        }
    }

    /// Decides the update of `found`, the fragment that the store holds under
    /// the command's fragment id, by `user` at time `now`: the fragment to
    /// write, or why the update is refused.
    pub fn plan(&self, user: Id, found: Option<Fragment>, now: DateTime) -> (r: Result<
        Fragment,
        UpdateFragmentCommandError,
    >)
        ensures
            r == self.spec_plan(user, found, now),
            r is Ok <==> (found matches Some(f) && f.spec_is_editable() && f.author_id == user),
    {
        match found {
            None => Err(UpdateFragmentCommandError::FragmentNotFound(self.fragment_id)),
            Some(f) => {
                if !f.is_editable() {
                    return Err(UpdateFragmentCommandError::NonEditableFragment(self.fragment_id));
                }
                if !f.is_author(user) {
                    return Err(UpdateFragmentCommandError::UserWithoutPermission(user));
                }
                Ok(f.set_content(self.content.clone()).set_last_modified_at(now).set_end(self.end))
            },
        }
    }
}

impl UpdateFragmentCommand {
    /// The handler's first call: the fragment under the command's id.
    pub fn start(&self) -> (s: HandlerStep<WriteStage, FragmentUpdatedEvent>)
        ensures
            s == HandlerStep::<WriteStage, FragmentUpdatedEvent>::Call(
                WriteStage::Finding,
                StoreCall::FindFragment(self.fragment_id),
            ),
    {
        HandlerStep::Call(WriteStage::Finding, StoreCall::FindFragment(self.fragment_id))
    }

    /// The handler's move after a reply: decide on the fragment read under
    /// the command's id, write the decided fragment, and report the event of
    /// the fragment as the store wrote it.
    pub open spec fn spec_resume(self, user: Id, now: DateTime, stage: WriteStage, reply: StoreReply) -> HandlerStep<
        WriteStage,
        FragmentUpdatedEvent,
    > {
        match (stage, reply) {
            (WriteStage::Finding, StoreReply::Fragment(found)) => match self.spec_plan(user, found, now) {
                Err(e) => HandlerStep::Done(Err(CommandBusError::UpdateFragmentCommand(e))),
                Ok(f) => HandlerStep::Call(WriteStage::Writing, StoreCall::UpdateFragment(f)),
            },
            (WriteStage::Writing, StoreReply::Saved(value)) => HandlerStep::Done(Ok(Some(FragmentUpdatedEvent { fragment_id: value.id, timestamp: value.last_modified_at, content: value.content, end: value.end, actor: Actor::User(value.author_id) }))),
            _ => HandlerStep::Done(Err(CommandBusError::UnexpectedReply)),
        }
    }

    pub fn resume(&self, user: Id, now: DateTime, stage: WriteStage, reply: StoreReply) -> (s: HandlerStep<
        WriteStage,
        FragmentUpdatedEvent,
    >)
        ensures
            s == self.spec_resume(user, now, stage, reply),
    {
        match (stage, reply) {
            (WriteStage::Finding, StoreReply::Fragment(found)) => match self.plan(user, found, now) {
                Err(e) => HandlerStep::Done(Err(CommandBusError::UpdateFragmentCommand(e))),
                Ok(f) => HandlerStep::Call(WriteStage::Writing, StoreCall::UpdateFragment(f)),
            },
            (WriteStage::Writing, StoreReply::Saved(value)) => HandlerStep::Done(
                Ok(Some(FragmentUpdatedEvent::from_fragment(value))),
            ),
            _ => HandlerStep::Done(Err(CommandBusError::UnexpectedReply)),
        }
    }
}

impl FragmentUpdatedEvent {
    /// The event for an updated fragment, acted by its author.
    pub fn from_fragment(value: Fragment) -> (e: FragmentUpdatedEvent)
        ensures
            e == (FragmentUpdatedEvent {
                fragment_id: value.id,
                timestamp: value.last_modified_at,
                content: value.content,
                end: value.end,
                actor: Actor::User(value.author_id),
            }),
    {
        FragmentUpdatedEvent {
            fragment_id: value.id,
            timestamp: value.last_modified_at,
            content: value.content,
            end: value.end,
            actor: Actor::User(value.author_id),
        }
    }
}

impl Command for UpdateFragmentCommand {
    type Event = FragmentUpdatedEvent;

    open spec fn spec_command_type(&self) -> CommandType {
        CommandType::UpdateFragment
    }

    /// Only users update fragments.
    open spec fn spec_supports(&self, actor: Actor) -> bool {
        actor.spec_actor_type() == ActorType::User
    }

    fn command_type(&self) -> (t: CommandType) {
        CommandType::UpdateFragment
    }

    fn supports<A: ActorTrait>(&self, actor: &A) -> (b: bool) {
        actor.actor_type() == ActorType::User
    }
}

} // verus!
