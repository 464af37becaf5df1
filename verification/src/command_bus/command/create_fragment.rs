use vstd::prelude::*;
use crate::command_bus::command::Command;
use crate::command_bus::error::CommandBusError;
use crate::command_bus::handler::{HandlerStep, StoreCall, StoreReply, WriteStage};
use crate::commons::actor::{Actor, ActorTrait};
use crate::commons::clock::DateTime;
use crate::commons::commands::CommandType;
use crate::commons::fragment::Content;
use crate::commons::id::Id;
use crate::events::FragmentCreatedEvent;
use crate::storage::model::fragment::{Fragment, FragmentState, Path};

verus! {

/// The handler itself never refuses to create a fragment, so no function
/// produces this error; it exists to name the command's failures in
/// `CommandBusError`.
#[derive(Debug, Clone, Copy, PartialEq, Eq, Structural)]
pub struct CreateFragmentCommandError;

/// Write a new story fragment (a root, not a fork).
#[derive(Debug)]
pub struct CreateFragmentCommand {
    pub fragment_id: Id,
    pub content: String,
    pub end: bool,
}

impl CreateFragmentCommand {
    pub fn new(fragment_id: Id, content: String, end: bool) -> (c: CreateFragmentCommand)
        ensures
            c == (CreateFragmentCommand { fragment_id, content, end }),
    {
        CreateFragmentCommand { fragment_id, content, end }
    }

    pub fn fragment_id(&self) -> (id: Id)
        ensures
            id == self.fragment_id,
    {
        self.fragment_id
    }

    pub fn content(&self) -> (c: &String)
        ensures
            *c == self.content,
    {
        &self.content
    }

    pub fn end(&self) -> (e: bool)
        ensures
            e == self.end,
    {
        self.end
    }

    /// The fragment that the command writes for `user` at time `now`: a
    /// draft root fragment with the command's id, text and end mark, created
    /// and last modified now.
    pub fn plan(&self, user: Id, now: DateTime) -> (f: Fragment)
        ensures
            f.id == self.fragment_id,
            f.author_id == user,
            f.content == Content(self.content),
            f.state == FragmentState::Draft,
            f.parent_id == None::<Id>,
            f.path@ == Seq::<Id>::empty(),
            f.end == self.end,
            f.created_at == now,
            f.last_modified_at == now,
    {
        Fragment {
            id: self.fragment_id,
            author_id: user,
            content: Content(self.content.clone()),
            state: FragmentState::Draft,
            parent_id: None,
            path: Path::empty(),
            end: self.end,
            created_at: now,
            last_modified_at: now,
        }
    }
}

impl CreateFragmentCommand {
    /// The handler's first call: save the fragment that `plan` decides for
    /// `user` at `now`.
    pub fn start(&self, user: Id, now: DateTime) -> (s: HandlerStep<WriteStage, FragmentCreatedEvent>)
        ensures
            s matches HandlerStep::Call(WriteStage::Writing, StoreCall::SaveFragment(f)) && f.id
                == self.fragment_id && f.author_id == user && f.content == Content(self.content)
                && f.state == FragmentState::Draft && f.parent_id == None::<Id> && f.path@ == Seq::<
                Id,
            >::empty() && f.end == self.end && f.created_at == now && f.last_modified_at == now,
    {
        HandlerStep::Call(WriteStage::Writing, StoreCall::SaveFragment(self.plan(user, now)))
    }

    /// The handler's move after the reply: report the event of the fragment
    /// as the store saved it.
    pub open spec fn spec_resume(self, stage: WriteStage, reply: StoreReply) -> HandlerStep<
        WriteStage,
        FragmentCreatedEvent,
    > {
        match (stage, reply) {
            (WriteStage::Writing, StoreReply::Saved(value)) => HandlerStep::Done(
                Ok(
                    Some(
                        FragmentCreatedEvent {
                            fragment_id: value.id,
                            user_id: value.author_id,
                            content: value.content,
                            end: value.end,
                            timestamp: value.created_at,
                        },
                    ),
                ),
            ),
            _ => HandlerStep::Done(Err(CommandBusError::UnexpectedReply)),
        }
    }

    pub fn resume(&self, stage: WriteStage, reply: StoreReply) -> (s: HandlerStep<
        WriteStage,
        FragmentCreatedEvent,
    >)
        ensures
            s == self.spec_resume(stage, reply),
    {
        match (stage, reply) {
            (WriteStage::Writing, StoreReply::Saved(value)) => HandlerStep::Done(
                Ok(Some(FragmentCreatedEvent::from_fragment(value))),
            ),
            _ => HandlerStep::Done(Err(CommandBusError::UnexpectedReply)),
        }
    }
}

impl FragmentCreatedEvent {
    /// The event for a written fragment, acted by its author at its creation time.
    pub fn from_fragment(value: Fragment) -> (e: FragmentCreatedEvent)
        ensures
            e == (FragmentCreatedEvent {
                fragment_id: value.id,
                user_id: value.author_id,
                content: value.content,
                end: value.end,
                timestamp: value.created_at,
            }),
    {
        FragmentCreatedEvent {
            fragment_id: value.id,
            user_id: value.author_id,
            content: value.content,
            end: value.end,
            timestamp: value.created_at,
        }
    }
}

impl Command for CreateFragmentCommand {
    type Event = FragmentCreatedEvent;

    open spec fn spec_command_type(&self) -> CommandType {
        CommandType::CreateFragment
    }

    /// Only users write fragments.
    open spec fn spec_supports(&self, actor: Actor) -> bool {
        actor is User
    }

    fn command_type(&self) -> (t: CommandType) {
        CommandType::CreateFragment
    }

    fn supports<A: ActorTrait>(&self, actor: &A) -> (b: bool) {
        actor.actor().is_user()
    }
}

} // verus!
