use vstd::prelude::*;
use crate::command_bus::command::Command;
use crate::command_bus::error::CommandBusError;
use crate::command_bus::handler::{HandlerStep, StoreCall, StoreReply};
use crate::commons::actor::{Actor, ActorTrait};
use crate::commons::clock::DateTime;
use crate::commons::commands::CommandType;
use crate::commons::id::Id;
use crate::commons::review::Comment;
use crate::events::FragmentForkReviewedEvent;
use crate::storage::model::fragment::{Fragment, FragmentState};
use crate::storage::model::review::{Review, ReviewAction};

verus! {

/// Approve or reject a fork that waits for review, as the parent's author.
#[derive(Debug)]
pub struct ReviewForkCommand {
    pub review_id: Id,
    pub fragment_id: Id,
    pub action: ReviewAction,
    pub comment: Option<Comment>,
}

/// Why a review was refused.
#[derive(Debug, Clone, Copy, PartialEq, Eq)]
pub enum ReviewForkCommandError {
    FragmentNotFound(Id),
    InvalidState(&'static str),
}

/// A copy of an optional comment.
fn clone_comment(c: &Option<Comment>) -> (r: Option<Comment>)
    ensures
        r == *c,
{
    match c {
        Some(c) => Some(c.clone()),
        None => None,
    }
}

impl ReviewForkCommand {
    pub fn new(review_id: Id, fragment_id: Id, action: ReviewAction, comment: Option<Comment>) -> (c: ReviewForkCommand)
        ensures
            c == (ReviewForkCommand { review_id, fragment_id, action, comment }),
    {
        ReviewForkCommand { review_id, fragment_id, action, comment }
    }

    /// The first decision, on the fragment that the store holds under the
    /// command's id: it must exist, be a fork and wait for review. On success
    /// its parent is looked up next.
    pub open spec fn spec_check(self, found: Option<Fragment>) -> Result<Fragment, ReviewForkCommandError> {
        match found {
            None => Err(ReviewForkCommandError::FragmentNotFound(self.fragment_id)),
            Some(f) => if !f.spec_is_fork() {
                Err(
                    ReviewForkCommandError::InvalidState(
                        "fragment should be in fork state to be reviewed",
                    ),
                )
            } else if !f.spec_is_waiting_review() {
                Err(
                    ReviewForkCommandError::InvalidState(
                        "fragment should be in waiting review state to be reviewed",
                    ),
                )
            } else {
                Ok(f)
            },
        }
    }

    pub fn check(&self, found: Option<Fragment>) -> (r: Result<Fragment, ReviewForkCommandError>)
        ensures
            r == self.spec_check(found),
    {
        match found {
            None => Err(ReviewForkCommandError::FragmentNotFound(self.fragment_id)),
            Some(f) => {
                if !f.is_fork() {
                    return Err(
                        ReviewForkCommandError::InvalidState(
                            "fragment should be in fork state to be reviewed",
                        ),
                    );
                }
                if !f.is_waiting_review() {
                    return Err(
                        ReviewForkCommandError::InvalidState(
                            "fragment should be in waiting review state to be reviewed",
                        ),
                    );
                }
                Ok(f)
            },
        }
    }

    /// The second decision: only the author of the fork's parent reviews it.
    /// The review to write records the user's verdict and comment, made now;
    /// the fork moves to the state of the verdict and was last modified now.
    pub open spec fn spec_plan(self, user: Id, fork: Fragment, parent: Fragment, now: DateTime) -> Result<
        (Review, Fragment),
        ReviewForkCommandError,
    > {
        if parent.author_id != user {
            Err(ReviewForkCommandError::InvalidState("only the parent author can review a fork"))
        } else {
            Ok(
                (
                    Review {
                        id: self.review_id,
                        fragment_id: self.fragment_id,
                        reviewer_id: user,
                        comment: self.comment,
                        created_at: now,
                        action: self.action,
                    },
                    Fragment {
                        state: FragmentState::spec_from_action(self.action),
                        last_modified_at: now,
                        ..fork
                    },
                ),
            )
        }
    }

    /// Decides the review of the checked `fork`, whose parent is `parent`,
    /// by `user` at time `now`: the review and the fork to write.
    pub fn plan(&self, user: Id, fork: Fragment, parent: &Fragment, now: DateTime) -> (r: Result<
        (Review, Fragment),
        ReviewForkCommandError,
    >)
        requires
            fork.parent_id == Some(parent.id),
        ensures
            r == self.spec_plan(user, fork, *parent, now),
    {
        if !parent.is_author(user) {
            return Err(
                ReviewForkCommandError::InvalidState("only the parent author can review a fork"),
            );
        }
        let review = Review {
            id: self.review_id,
            fragment_id: self.fragment_id,
            reviewer_id: user,
            comment: clone_comment(&self.comment),
            created_at: now,
            action: self.action,
        };
        let updated = fork.set_state(FragmentState::from_action(self.action)).set_last_modified_at(
            now,
        );
        Ok((review, updated))
    }
}

/// Where the review handler stands between its store calls.
#[derive(Debug)]
pub enum ReviewStage {
    /// The fragment under the command's id was asked for.
    FindingFork,
    /// The parent of the checked fork was asked for.
    FindingParent(Fragment),
    /// The decided review was handed to the store; the fork's new values
    /// are written next.
    SavingReview(Fragment),
    /// The fork's new values were handed to the store; the review is the one
    /// that the store saved.
    UpdatingFork(Review),
}

impl ReviewForkCommand {
    /// The handler's first call: the fragment under the command's id.
    pub fn start(&self) -> (s: HandlerStep<ReviewStage, FragmentForkReviewedEvent>)
        ensures
            s == HandlerStep::<ReviewStage, FragmentForkReviewedEvent>::Call(
                ReviewStage::FindingFork,
                StoreCall::FindFragment(self.fragment_id),
            ),
    {
        HandlerStep::Call(ReviewStage::FindingFork, StoreCall::FindFragment(self.fragment_id))
    }

    /// The handler's move after a reply: check the fork, read its parent,
    /// decide the review, save it, write the fork's new values, and report
    /// the event of the review as the store saved it. A missing parent, or a
    /// fragment other than the fork's parent, is an unexpected reply.
    pub open spec fn spec_resume(self, user: Id, now: DateTime, stage: ReviewStage, reply: StoreReply) -> HandlerStep<
        ReviewStage,
        FragmentForkReviewedEvent,
    > {
        match (stage, reply) {
            (ReviewStage::FindingFork, StoreReply::Fragment(found)) => match self.spec_check(found) {
                Err(e) => HandlerStep::Done(Err(CommandBusError::ReviewForkCommand(e))),
                Ok(fork) => match fork.parent_id {
                    Some(parent_id) => HandlerStep::Call(
                        ReviewStage::FindingParent(fork),
                        StoreCall::FindFragment(parent_id),
                    ),
                    None => HandlerStep::Done(Err(CommandBusError::UnexpectedReply)),
                },
            },
            (ReviewStage::FindingParent(fork), StoreReply::Fragment(found)) => match found {
                Some(parent) => if fork.parent_id == Some(parent.id) {
                    match self.spec_plan(user, fork, parent, now) {
                        Err(e) => HandlerStep::Done(Err(CommandBusError::ReviewForkCommand(e))),
                        Ok((review, updated)) => HandlerStep::Call(
                            ReviewStage::SavingReview(updated),
                            StoreCall::SaveReview(review),
                        ),
                    }
                } else {
                    HandlerStep::Done(Err(CommandBusError::UnexpectedReply))
                },
                None => HandlerStep::Done(Err(CommandBusError::UnexpectedReply)),
            },
            (ReviewStage::SavingReview(updated), StoreReply::SavedReview(saved)) => HandlerStep::Call(
                ReviewStage::UpdatingFork(saved),
                StoreCall::UpdateFragment(updated),
            ),
            (ReviewStage::UpdatingFork(saved), StoreReply::Saved(_)) => HandlerStep::Done(
                Ok(
                    Some(
                        FragmentForkReviewedEvent {
                            fragment_id: saved.fragment_id,
                            timestamp: saved.created_at,
                            comment: saved.comment,
                            action: saved.action,
                            actor: Actor::User(saved.reviewer_id),
                        },
                    ),
                ),
            ),
            _ => HandlerStep::Done(Err(CommandBusError::UnexpectedReply)),
        }
    }

    pub fn resume(&self, user: Id, now: DateTime, stage: ReviewStage, reply: StoreReply) -> (s: HandlerStep<
        ReviewStage,
        FragmentForkReviewedEvent,
    >)
        ensures
            s == self.spec_resume(user, now, stage, reply),
    {
        match (stage, reply) {
            (ReviewStage::FindingFork, StoreReply::Fragment(found)) => match self.check(found) {
                Err(e) => HandlerStep::Done(Err(CommandBusError::ReviewForkCommand(e))),
                Ok(fork) => match fork.parent_id() {
                    Some(parent_id) => HandlerStep::Call(
                        ReviewStage::FindingParent(fork),
                        StoreCall::FindFragment(parent_id),
                    ),
                    None => HandlerStep::Done(Err(CommandBusError::UnexpectedReply)),
                },
            },
            (ReviewStage::FindingParent(fork), StoreReply::Fragment(found)) => match found {
                Some(parent) => {
                    let same = match fork.parent_id() {
                        Some(parent_id) => parent_id == parent.id(),
                        None => false,
                    };
                    if same {
                        match self.plan(user, fork, &parent, now) {
                            Err(e) => HandlerStep::Done(Err(CommandBusError::ReviewForkCommand(e))),
                            Ok((review, updated)) => HandlerStep::Call(
                                ReviewStage::SavingReview(updated),
                                StoreCall::SaveReview(review),
                            ),
                        }
                    } else {
                        HandlerStep::Done(Err(CommandBusError::UnexpectedReply))
                    }
                },
                None => HandlerStep::Done(Err(CommandBusError::UnexpectedReply)),
            },
            (ReviewStage::SavingReview(updated), StoreReply::SavedReview(saved)) => HandlerStep::Call(
                ReviewStage::UpdatingFork(saved),
                StoreCall::UpdateFragment(updated),
            ),
            (ReviewStage::UpdatingFork(saved), StoreReply::Saved(_)) => HandlerStep::Done(
                Ok(Some(FragmentForkReviewedEvent::from_review(saved))),
            ),
            _ => HandlerStep::Done(Err(CommandBusError::UnexpectedReply)),
        }
    }
}

impl FragmentForkReviewedEvent {
    /// The event for a written review, acted by the user who wrote it, at its time.
    pub fn from_review(value: Review) -> (e: FragmentForkReviewedEvent)
        ensures
            e == (FragmentForkReviewedEvent {
                fragment_id: value.fragment_id,
                timestamp: value.created_at,
                comment: value.comment,
                action: value.action,
                actor: Actor::User(value.reviewer_id),
            }),
    {
        FragmentForkReviewedEvent {
            fragment_id: value.fragment_id,
            timestamp: value.created_at,
            comment: value.comment,
            action: value.action,
            actor: Actor::User(value.reviewer_id),
        }
    }
}

impl Command for ReviewForkCommand {
    type Event = FragmentForkReviewedEvent;

    open spec fn spec_command_type(&self) -> CommandType {
        CommandType::ReviewFork
    }

    /// Only users review forks.
    open spec fn spec_supports(&self, actor: Actor) -> bool {
        actor is User
    }

    fn command_type(&self) -> (t: CommandType) {
        CommandType::ReviewFork
    }

    fn supports<A: ActorTrait>(&self, actor: &A) -> (b: bool) {
        actor.actor().is_user()
    }
}

} // verus!
