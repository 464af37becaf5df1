use vstd::prelude::*;
use crate::command_bus::command::Command;
use crate::command_bus::error::CommandBusError;
use crate::command_bus::handler::{HandlerStep, StoreCall, StoreReply};
use crate::commons::actor::{Actor, ActorTrait, ActorType};
use crate::commons::clock::DateTime;
use crate::commons::commands::CommandType;
use crate::commons::fragment::Content;
use crate::commons::id::Id;
use crate::events::FragmentForkedEvent;
use crate::storage::model::fragment::{Fragment, FragmentState};

verus! {

/// Continue a friend's published fragment with a fork of one's own.
#[derive(Debug)]
pub struct ForkFragmentCommand {
    pub fragment_id: Id,
    pub parent_fragment_id: Id,
    pub content: Content,
    pub end: bool,
}

/// Why a fork was refused.
#[derive(Debug, Clone, Copy, PartialEq, Eq)]
pub enum ForkFragmentCommandError {
    /// The parent was not found; the error carries the id of the fork that
    /// was to be written.
    ParentFragmentNotFound(Id),
    Forbidden(&'static str),
    InvalidState(&'static str),
}

impl ForkFragmentCommand {
    pub fn new(fragment_id: Id, parent_fragment_id: Id, content: Content, end: bool) -> (c: ForkFragmentCommand)
        ensures
            c == (ForkFragmentCommand { fragment_id, parent_fragment_id, content, end }),
    {
        ForkFragmentCommand { fragment_id, parent_fragment_id, content, end }
    }

    /// The first decision, on the parent that the store holds: it must exist,
    /// be published, belong to someone else and not end the story.
    pub open spec fn spec_check_parent(self, user: Id, found: Option<Fragment>) -> Result<
        Fragment,
        ForkFragmentCommandError,
    > {
        match found {
            None => Err(ForkFragmentCommandError::ParentFragmentNotFound(self.fragment_id)),
            Some(p) => if p.state != FragmentState::Published {
                Err(ForkFragmentCommandError::InvalidState("Parent fragment is not published"))
            } else if p.author_id == user {
                Err(ForkFragmentCommandError::Forbidden("Cannot fork your own fragment"))
            } else if p.end {
                Err(ForkFragmentCommandError::Forbidden("Cannot fork an end fragment"))
            } else {
                Ok(p)
            },
        }
    }

    /// Checks the parent that the store holds under the command's parent id.
    /// On success, whether the parent's author and `user` follow each other
    /// is looked up next.
    pub fn check_parent(&self, user: Id, found: Option<Fragment>) -> (r: Result<
        Fragment,
        ForkFragmentCommandError,
    >)
        ensures
            r == self.spec_check_parent(user, found),
    {
        match found {
            None => Err(ForkFragmentCommandError::ParentFragmentNotFound(self.fragment_id)),
            Some(p) => {
                if !p.is_published() {
                    return Err(
                        ForkFragmentCommandError::InvalidState("Parent fragment is not published"),
                    );
                }
                if p.is_author(user) {
                    return Err(ForkFragmentCommandError::Forbidden("Cannot fork your own fragment"));
                }
                if p.end() {
                    return Err(ForkFragmentCommandError::Forbidden("Cannot fork an end fragment"));
                }
                Ok(p)
            },
        }
    }

    /// The fork to write, given the checked parent and whether its author and
    /// `user` are friends: only friends fork. The fork is a draft by `user`
    /// under the parent, with the command's id, text and end mark, and the
    /// parent's path followed by the parent; it is created and modified now.
    pub fn plan(&self, user: Id, parent: &Fragment, friend: bool, now: DateTime) -> (r: Result<
        Fragment,
        ForkFragmentCommandError,
    >)
        ensures
            !friend ==> r == Err::<Fragment, _>(
                ForkFragmentCommandError::Forbidden("You must be fragment author friend"),
            ),
            friend ==> (r matches Ok(f) && f.id == self.fragment_id && f.author_id == user
                && f.content == self.content && f.state == FragmentState::Draft && f.parent_id
                == Some(self.parent_fragment_id) && f.path@ == parent.path@.push(
                self.parent_fragment_id,
            ) && f.end == self.end && f.created_at == now && f.last_modified_at == now),
    {
        if !friend {
            return Err(ForkFragmentCommandError::Forbidden("You must be fragment author friend"));
        }
        Ok(
            Fragment {
                id: self.fragment_id,
                author_id: user,
                content: self.content.clone(),
                state: FragmentState::Draft,
                parent_id: Some(self.parent_fragment_id),
                path: parent.path().append(self.parent_fragment_id),
                end: self.end,
                created_at: now,
                last_modified_at: now,
            },
        )
    }
}

/// Where the fork handler stands between its store calls.
#[derive(Debug)]
pub enum ForkStage {
    /// The fragment under the command's parent id was asked for.
    FindingParent,
    /// Whether the checked parent's author and the user follow each other
    /// was asked for.
    CheckingFriends(Fragment),
    /// The decided fork was handed to the store.
    SavingFork,
}

impl ForkFragmentCommand {
    /// The fork that the command writes for `user` under `parent` at `now`:
    /// a draft by `user` with the command's id, text and end mark, under the
    /// command's parent, with the parent's path followed by the parent,
    /// created and modified now.
    pub open spec fn spec_is_fork_of(self, user: Id, parent: Fragment, now: DateTime, f: Fragment) -> bool {
        &&& f.id == self.fragment_id
        &&& f.author_id == user
        &&& f.content == self.content
        &&& f.state == FragmentState::Draft
        &&& f.parent_id == Some(self.parent_fragment_id)
        &&& f.path@ == parent.path@.push(self.parent_fragment_id)
        &&& f.end == self.end
        &&& f.created_at == now
        &&& f.last_modified_at == now
    }

    /// The handler's first call: the fragment under the command's parent id.
    pub fn start(&self) -> (s: HandlerStep<ForkStage, FragmentForkedEvent>)
        ensures
            s == HandlerStep::<ForkStage, FragmentForkedEvent>::Call(
                ForkStage::FindingParent,
                StoreCall::FindFragment(self.parent_fragment_id),
            ),
    {
        HandlerStep::Call(ForkStage::FindingParent, StoreCall::FindFragment(self.parent_fragment_id))
    }

    /// The handler's move after a reply: check the parent, read whether its
    /// author and the user are friends, save the fork, and report the event
    /// of the fork as the store saved it. A saved fragment without a parent is
    /// an unexpected reply.
    pub fn resume(&self, user: Id, now: DateTime, stage: ForkStage, reply: StoreReply) -> (s: HandlerStep<
        ForkStage,
        FragmentForkedEvent,
    >)
        ensures
            stage is FindingParent ==> (reply matches StoreReply::Fragment(found) ==> s == match self.spec_check_parent(user, found) {
                Err(e) => HandlerStep::Done(Err(CommandBusError::ForkFragmentCommand(e))),
                Ok(p) => HandlerStep::<ForkStage, FragmentForkedEvent>::Call(
                    ForkStage::CheckingFriends(p),
                    StoreCall::FollowEachOther(p.author_id, user),
                ),
            }),
            stage matches ForkStage::CheckingFriends(p) ==> (reply matches StoreReply::Friends(friend) ==> (
            if friend {
                s matches HandlerStep::Call(ForkStage::SavingFork, StoreCall::SaveFragment(f))
                    && self.spec_is_fork_of(user, p, now, f)
            } else {
                s == HandlerStep::<ForkStage, FragmentForkedEvent>::Done(
                    Err(CommandBusError::ForkFragmentCommand(
                        ForkFragmentCommandError::Forbidden("You must be fragment author friend"),
                    )),
                )
            })),
            stage is SavingFork ==> (reply matches StoreReply::Saved(value) ==> s == match value.parent_id {
                Some(parent_id) => HandlerStep::<ForkStage, FragmentForkedEvent>::Done(
                    Ok(
                        Some(
                            FragmentForkedEvent {
                                fragment_id: value.id,
                                user_id: value.author_id,
                                content: value.content,
                                end: value.end,
                                parent_fragment_id: parent_id,
                                timestamp: value.created_at,
                            },
                        ),
                    ),
                ),
                None => HandlerStep::Done(Err(CommandBusError::UnexpectedReply)),
            }),
            !((stage is FindingParent && reply is Fragment) || (stage is CheckingFriends && reply is Friends)
                || (stage is SavingFork && reply is Saved)) ==> s
                == HandlerStep::<ForkStage, FragmentForkedEvent>::Done(Err(CommandBusError::UnexpectedReply)),
    {
        match (stage, reply) {
            (ForkStage::FindingParent, StoreReply::Fragment(found)) => match self.check_parent(user, found) {
                Err(e) => HandlerStep::Done(Err(CommandBusError::ForkFragmentCommand(e))),
                Ok(p) => {
                    let author = p.author_id();
                    HandlerStep::Call(ForkStage::CheckingFriends(p), StoreCall::FollowEachOther(author, user))
                },
            },
            (ForkStage::CheckingFriends(p), StoreReply::Friends(friend)) => match self.plan(user, &p, friend, now) {
                Err(e) => HandlerStep::Done(Err(CommandBusError::ForkFragmentCommand(e))),
                Ok(f) => HandlerStep::Call(ForkStage::SavingFork, StoreCall::SaveFragment(f)),
            },
            (ForkStage::SavingFork, StoreReply::Saved(value)) => {
                if value.parent_id().is_some() {
                    HandlerStep::Done(Ok(Some(FragmentForkedEvent::from_fragment(value))))
                } else {
                    HandlerStep::Done(Err(CommandBusError::UnexpectedReply))
                }
            },
            _ => HandlerStep::Done(Err(CommandBusError::UnexpectedReply)),
        }
    }
}

impl FragmentForkedEvent {
    /// The event for a written fork, acted by its author at its creation time.
    pub fn from_fragment(value: Fragment) -> (e: FragmentForkedEvent)
        requires
            value.parent_id is Some,
        ensures
            e == (FragmentForkedEvent {
                fragment_id: value.id,
                user_id: value.author_id,
                content: value.content,
                end: value.end,
                parent_fragment_id: value.parent_id->Some_0,
                timestamp: value.created_at,
            }),
    {
        let parent_fragment_id = value.parent_id.unwrap();
        FragmentForkedEvent {
            fragment_id: value.id,
            user_id: value.author_id,
            content: value.content,
            end: value.end,
            parent_fragment_id,
            timestamp: value.created_at,
        }
    }
}

impl Command for ForkFragmentCommand {
    type Event = FragmentForkedEvent;

    open spec fn spec_command_type(&self) -> CommandType {
        CommandType::ForkFragment
    }

    /// Only users fork fragments.
    open spec fn spec_supports(&self, actor: Actor) -> bool {
        actor.spec_actor_type() == ActorType::User
    }

    fn command_type(&self) -> (t: CommandType) {
        CommandType::ForkFragment
    }

    fn supports<A: ActorTrait>(&self, actor: &A) -> (b: bool) {
        actor.actor_type() == ActorType::User
    }
}

} // verus!
