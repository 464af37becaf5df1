use vstd::prelude::*;
use crate::command_bus::command::Command;
use crate::command_bus::error::CommandBusError;
use crate::command_bus::handler::{HandlerStep, StoreCall, StoreReply};
use crate::commons::actor::{Actor, ActorTrait};
use crate::commons::clock::DateTime;
use crate::commons::commands::CommandType;
use crate::commons::id::Id;
use crate::events::FragmentLikedEvent;
use crate::storage::model::fragment::{Fragment, FragmentState};
use crate::storage::model::like::Like;

verus! {

/// Like a published fragment as the acting user.
#[derive(Debug, Clone, Copy, PartialEq, Eq, Structural)]
pub struct LikeFragmentCommand {
    pub fragment_id: Id,
}

/// Why a like was refused.
#[derive(Debug, Clone, Copy, PartialEq, Eq, Structural)]
pub enum LikeFragmentCommandError {
    FragmentNotFound(Id),
    FragmentNotPublished(Id),
}

impl LikeFragmentCommand {
    pub fn new(fragment_id: Id) -> (c: LikeFragmentCommand)
        ensures
            c.fragment_id == fragment_id,
    {
        LikeFragmentCommand { fragment_id }
    }

    /// The first decision, on the fragment that the store holds under the
    /// command's id: it must exist and be published.
    pub open spec fn spec_check(self, found: Option<Fragment>) -> Result<Fragment, LikeFragmentCommandError> {
        match found {
            None => Err(LikeFragmentCommandError::FragmentNotFound(self.fragment_id)),
            Some(f) => if f.state == FragmentState::Published {
                Ok(f)
            } else {
                Err(LikeFragmentCommandError::FragmentNotPublished(self.fragment_id))
            },
        }
    }

    pub fn check(&self, found: Option<Fragment>) -> (r: Result<Fragment, LikeFragmentCommandError>)
        ensures
            r == self.spec_check(found),
            found is None ==> r == Err::<Fragment, _>(
                LikeFragmentCommandError::FragmentNotFound(self.fragment_id),
            ),
            found matches Some(f) ==> (if f.state == FragmentState::Published {
                r == Ok::<_, LikeFragmentCommandError>(f)
            } else {
                r == Err::<Fragment, _>(LikeFragmentCommandError::FragmentNotPublished(self.fragment_id))
            }),
    {
        match found {
            None => Err(LikeFragmentCommandError::FragmentNotFound(self.fragment_id)),
            Some(f) => if f.is_published() {
                Ok(f)
            } else {
                Err(LikeFragmentCommandError::FragmentNotPublished(self.fragment_id))
            },
        }
    }

    /// The like to write, given the user's like of `fragment` that the store
    /// holds: none when the user already likes it, else a like of it by the
    /// user, made now.
    pub open spec fn spec_plan(self, user: Id, fragment: Fragment, existing: Option<Like>, now: DateTime) -> Option<Like> {
        match existing {
            Some(_) => None,
            None => Some(Like { fragment_id: fragment.id, user_id: user, created_at: now }),
        }
    }

    /// Decides the like of the checked `fragment` by `user` at time `now`;
    /// `existing` is the store's like of that fragment by that user.
    pub fn plan(&self, user: Id, fragment: &Fragment, existing: Option<Like>, now: DateTime) -> (r: Option<Like>)
        requires
            existing matches Some(l) ==> l.fragment_id == fragment.id && l.user_id == user,
        ensures
            r == self.spec_plan(user, *fragment, existing, now),
            r is Some <==> existing is None,
            r matches Some(l) ==> l == (Like { fragment_id: fragment.id, user_id: user, created_at: now }),
    {
        match existing {
            Some(_) => None,
            None => Some(Like { fragment_id: fragment.id, user_id: user, created_at: now }),
        }
    }
}

/// Where the like handler stands between its store calls.
#[derive(Debug)]
pub enum LikeStage {
    /// The fragment under the command's id was asked for.
    FindingFragment,
    /// The user's like of the checked fragment was asked for.
    FindingLike(Fragment),
    /// The planned like was handed to the store.
    SavingLike,
}

impl LikeFragmentCommand {
    /// The handler's first call: the fragment under the command's id.
    pub fn start(&self) -> (s: HandlerStep<LikeStage, FragmentLikedEvent>)
        ensures
            s == HandlerStep::<LikeStage, FragmentLikedEvent>::Call(
                LikeStage::FindingFragment,
                StoreCall::FindFragment(self.fragment_id),
            ),
    {
        HandlerStep::Call(LikeStage::FindingFragment, StoreCall::FindFragment(self.fragment_id))
    }

    /// The handler's move after a reply: check the fragment, then read the
    /// user's like of it, then save the planned like (if any), and report
    /// the event of the like as the store saved it.
    pub open spec fn spec_resume(self, user: Id, now: DateTime, stage: LikeStage, reply: StoreReply) -> HandlerStep<
        LikeStage,
        FragmentLikedEvent,
    > {
        match (stage, reply) {
            (LikeStage::FindingFragment, StoreReply::Fragment(found)) => match self.spec_check(found) {
                Err(e) => HandlerStep::Done(Err(CommandBusError::LikeFragmentCommand(e))),
                Ok(f) => HandlerStep::Call(LikeStage::FindingLike(f), StoreCall::FindLike(f.id, user)),
            },
            (LikeStage::FindingLike(f), StoreReply::Like(existing)) => if existing matches Some(l) && (
            l.fragment_id != f.id || l.user_id != user) {
                HandlerStep::Done(Err(CommandBusError::UnexpectedReply))
            } else {
                match self.spec_plan(user, f, existing, now) {
                    None => HandlerStep::Done(Ok(None)),
                    Some(l) => HandlerStep::Call(LikeStage::SavingLike, StoreCall::SaveLike(l)),
                }
            },
            (LikeStage::SavingLike, StoreReply::SavedLike(saved)) => HandlerStep::Done(
                Ok(
                    Some(
                        FragmentLikedEvent {
                            fragment_id: saved.fragment_id,
                            user_id: saved.user_id,
                            timestamp: saved.created_at,
                        },
                    ),
                ),
            ),
            _ => HandlerStep::Done(Err(CommandBusError::UnexpectedReply)),
        }
    }

    pub fn resume(&self, user: Id, now: DateTime, stage: LikeStage, reply: StoreReply) -> (s: HandlerStep<
        LikeStage,
        FragmentLikedEvent,
    >)
        ensures
            s == self.spec_resume(user, now, stage, reply),
    {
        match (stage, reply) {
            (LikeStage::FindingFragment, StoreReply::Fragment(found)) => match self.check(found) {
                Err(e) => HandlerStep::Done(Err(CommandBusError::LikeFragmentCommand(e))),
                Ok(f) => {
                    let id = f.id();
                    HandlerStep::Call(LikeStage::FindingLike(f), StoreCall::FindLike(id, user))
                },
            },
            (LikeStage::FindingLike(f), StoreReply::Like(existing)) => {
                if let Some(l) = existing {
                    if l.fragment_id != f.id || l.user_id != user {
                        return HandlerStep::Done(Err(CommandBusError::UnexpectedReply));
                    }
                }
                match self.plan(user, &f, existing, now) {
                    None => HandlerStep::Done(Ok(None)),
                    Some(l) => HandlerStep::Call(LikeStage::SavingLike, StoreCall::SaveLike(l)),
                }
            },
            (LikeStage::SavingLike, StoreReply::SavedLike(saved)) => HandlerStep::Done(
                Ok(Some(FragmentLikedEvent::from_like(saved))),
            ),
            _ => HandlerStep::Done(Err(CommandBusError::UnexpectedReply)),
        }
    }
}

impl FragmentLikedEvent {
    /// The event for a written like.
    pub fn from_like(value: Like) -> (e: FragmentLikedEvent)
        ensures
            e == (FragmentLikedEvent {
                fragment_id: value.fragment_id,
                user_id: value.user_id,
                timestamp: value.created_at,
            }),
    {
        FragmentLikedEvent {
            fragment_id: value.fragment_id,
            user_id: value.user_id,
            timestamp: value.created_at,
        }
    }
}

impl Command for LikeFragmentCommand {
    type Event = FragmentLikedEvent;

    open spec fn spec_command_type(&self) -> CommandType {
        CommandType::LikeFragment
    }

    /// Only users like fragments.
    open spec fn spec_supports(&self, actor: Actor) -> bool {
        actor is User
    }

    fn command_type(&self) -> (t: CommandType) {
        CommandType::LikeFragment
    }

    fn supports<A: ActorTrait>(&self, actor: &A) -> (b: bool) {
        actor.actor().is_user()
    }
}

} // verus!
