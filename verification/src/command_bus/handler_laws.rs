//! What each command's handler does, stated over what the store answers and
//! what the handler asks or reports next: which reads let it go on, what it
//! writes, and which refusal ends it.

use vstd::prelude::*;
use crate::command_bus::command::create_fragment::CreateFragmentCommand;
use crate::command_bus::command::dislike_fragment::{
    DislikeFragmentCommand, DislikeFragmentCommandError, DislikeStage,
};
use crate::command_bus::command::follow_user::{FollowStage, FollowUserCommand};
use crate::command_bus::command::fork_fragment::{ForkFragmentCommand, ForkFragmentCommandError};
use crate::command_bus::command::submit_fork::{SubmitForkCommand, SubmitForkCommandError};
use crate::command_bus::command::unfollow_user::{UnfollowStage, UnfollowUserCommand};
use crate::command_bus::command::like_fragment::{
    LikeFragmentCommand, LikeFragmentCommandError, LikeStage,
};
use crate::command_bus::command::publish_fragment::{
    PublishFragmentCommand, PublishFragmentCommandError,
};
use crate::command_bus::command::review_fork::{
    ReviewForkCommand, ReviewForkCommandError, ReviewStage,
};
use crate::command_bus::command::update_fragment::{
    UpdateFragmentCommand, UpdateFragmentCommandError,
};
use crate::command_bus::error::CommandBusError;
use crate::command_bus::handler::{HandlerStep, StoreCall, StoreReply, WriteStage};
use crate::commons::clock::DateTime;
use crate::commons::id::Id;
use crate::commons::actor::Actor;
use crate::events::{
    ForkSubmittedEvent, FragmentCreatedEvent, FragmentDislikedEvent, FragmentForkReviewedEvent,
    FragmentLikedEvent, FragmentPublishedEvent, FragmentUpdatedEvent, UserFollowedEvent,
    UserUnfollowedEvent,
};
use crate::storage::model::follow::Follow;
use crate::storage::model::fragment::{Fragment, FragmentState};
use crate::storage::model::like::Like;
use crate::storage::model::review::{Review, ReviewAction};

verus! {

/// The fork is stored with the verdict's state: once the handler holds the
/// fork and its parent and the store holds the decided review, the fork that
/// the handler asks the store to update is the fork it held, moved to
/// Approved for an approval and to Rejected for a rejection and modified at
/// the time of the decision. It gets
/// that far only when the reply is the fork's parent and the user is that
/// parent's author; the saved review is the user's verdict on the command's
/// fork, with the command's id and comment.
pub proof fn lemma_review_writes_the_verdict(
    cmd: ReviewForkCommand,
    user: Id,
    fork: Fragment,
    parent_reply: StoreReply,
    decided_at: DateTime,
    saved: Review,
    saved_at: DateTime,
)
    ensures
        cmd.spec_resume(user, decided_at, ReviewStage::FindingParent(fork), parent_reply) matches HandlerStep::Call(stage, StoreCall::SaveReview(review)) ==> ({
            &&& parent_reply matches StoreReply::Fragment(Some(parent)) && parent.author_id == user
                && fork.parent_id == Some(parent.id)
            &&& review == (Review {
                id: cmd.review_id,
                fragment_id: cmd.fragment_id,
                reviewer_id: user,
                comment: cmd.comment,
                created_at: decided_at,
                action: cmd.action,
            })
            &&& cmd.spec_resume(user, saved_at, stage, StoreReply::SavedReview(saved))
                == HandlerStep::<ReviewStage, crate::events::FragmentForkReviewedEvent>::Call(
                ReviewStage::UpdatingFork(saved),
                StoreCall::UpdateFragment(
                    Fragment {
                        state: if cmd.action == ReviewAction::Approve {
                            FragmentState::Approved
                        } else {
                            FragmentState::Rejected
                        },
                        last_modified_at: decided_at,
                        ..fork
                    },
                ),
            )
        }),
{
}

/// A review goes on to the parent only for a fork that awaits its review:
/// on the fragment read under the command's id, a missing one is refused as
/// not found, one without a parent as not a fork, and a fork in a state
/// other than Submitted or WaitingReview as not waiting; a waiting fork leads
/// to the read of its own parent.
pub proof fn lemma_review_only_of_a_waiting_fork(
    cmd: ReviewForkCommand,
    user: Id,
    now: DateTime,
    found: Option<Fragment>,
)
    ensures
        ({
            let s = cmd.spec_resume(user, now, ReviewStage::FindingFork, StoreReply::Fragment(found));
            &&& found is None ==> s == HandlerStep::<ReviewStage, FragmentForkReviewedEvent>::Done(
                Err(CommandBusError::ReviewForkCommand(
                    ReviewForkCommandError::FragmentNotFound(cmd.fragment_id),
                )),
            )
            &&& (found matches Some(f) && f.parent_id is None) ==> s == HandlerStep::<
                ReviewStage,
                FragmentForkReviewedEvent,
            >::Done(
                Err(CommandBusError::ReviewForkCommand(
                    ReviewForkCommandError::InvalidState(
                        "fragment should be in fork state to be reviewed",
                    ),
                )),
            )
            &&& (found matches Some(f) && f.parent_id is Some && f.state != FragmentState::Submitted
                && f.state != FragmentState::WaitingReview) ==> s == HandlerStep::<
                ReviewStage,
                FragmentForkReviewedEvent,
            >::Done(
                Err(CommandBusError::ReviewForkCommand(
                    ReviewForkCommandError::InvalidState(
                        "fragment should be in waiting review state to be reviewed",
                    ),
                )),
            )
            &&& (found matches Some(f) && f.parent_id is Some && (f.state == FragmentState::Submitted
                || f.state == FragmentState::WaitingReview)) ==> s == HandlerStep::<
                ReviewStage,
                FragmentForkReviewedEvent,
            >::Call(
                ReviewStage::FindingParent(found->Some_0),
                StoreCall::FindFragment(found->Some_0.parent_id->Some_0),
            )
        }),
{
}

/// Only the parent's author reviews: given the fork's parent, another user
/// is refused; a missing parent, or a fragment other than the fork's
/// parent, is an unexpected reply. Once the review is written, the handler
/// reports the review as the store saved it.
pub proof fn lemma_review_by_the_parent_author(
    cmd: ReviewForkCommand,
    user: Id,
    now: DateTime,
    fork: Fragment,
    parent_reply: Option<Fragment>,
    saved: Review,
    written: StoreReply,
)
    ensures
        ({
            let s = cmd.spec_resume(user, now, ReviewStage::FindingParent(fork), StoreReply::Fragment(parent_reply));
            &&& (parent_reply matches Some(p) && fork.parent_id == Some(p.id) && p.author_id != user) ==> s
                == HandlerStep::<ReviewStage, FragmentForkReviewedEvent>::Done(
                Err(CommandBusError::ReviewForkCommand(
                    ReviewForkCommandError::InvalidState("only the parent author can review a fork"),
                )),
            )
            &&& !(parent_reply matches Some(p) && fork.parent_id == Some(p.id)) ==> s == HandlerStep::<
                ReviewStage,
                FragmentForkReviewedEvent,
            >::Done(Err(CommandBusError::UnexpectedReply))
            &&& written is Saved ==> cmd.spec_resume(user, now, ReviewStage::UpdatingFork(saved), written)
                == HandlerStep::<ReviewStage, FragmentForkReviewedEvent>::Done(
                Ok(
                    Some(
                        FragmentForkReviewedEvent {
                            fragment_id: saved.fragment_id,
                            timestamp: saved.created_at,
                            comment: saved.comment,
                            action: saved.action,
                            actor: Actor::User(saved.reviewer_id),
                        },
                    ),
                ),
            )
        }),
{
}

/// Publication writes only what may be published: the handler asks the
/// store to write exactly when the found fragment is the user's and is a root
/// draft or an approved fork, and what it writes is that fragment published
/// and modified now. A missing fragment, another user's fragment, a draft
/// fork, a published fragment and any other state are refused with the
/// matching errors.
pub proof fn lemma_publish_writes_only_publishable(
    cmd: PublishFragmentCommand,
    user: Id,
    now: DateTime,
    found: Option<Fragment>,
)
    ensures
        ({
            let s = cmd.spec_resume(user, now, WriteStage::Finding, StoreReply::Fragment(found));
            let publishable = found matches Some(f) && f.author_id == user && ((f.state
                == FragmentState::Draft && f.parent_id is None) || (f.state == FragmentState::Approved
                && f.parent_id is Some));
            &&& publishable ==> s == HandlerStep::<WriteStage, FragmentPublishedEvent>::Call(
                WriteStage::Writing,
                StoreCall::UpdateFragment(
                    Fragment { state: FragmentState::Published, last_modified_at: now, ..found->Some_0 },
                ),
            )
            &&& !publishable ==> (s matches HandlerStep::Done(Err(_)))
            &&& found is None ==> s == HandlerStep::<WriteStage, FragmentPublishedEvent>::Done(
                Err(CommandBusError::PublishFragmentCommand(
                    PublishFragmentCommandError::FragmentNotFound(cmd.fragment_id),
                )),
            )
            &&& (found matches Some(f) && f.author_id != user) ==> s == HandlerStep::<
                WriteStage,
                FragmentPublishedEvent,
            >::Done(
                Err(CommandBusError::PublishFragmentCommand(
                    PublishFragmentCommandError::Forbidden("Only the fragment author can publish it"),
                )),
            )
            &&& (found matches Some(f) && f.author_id == user && f.state == FragmentState::Draft
                && f.parent_id is Some) ==> s == HandlerStep::<WriteStage, FragmentPublishedEvent>::Done(
                Err(CommandBusError::PublishFragmentCommand(
                    PublishFragmentCommandError::InvalidState(
                        "forks need to be aprovved to be published",
                    ),
                )),
            )
            &&& (found matches Some(f) && f.author_id == user && f.state == FragmentState::Published)
                ==> s == HandlerStep::<WriteStage, FragmentPublishedEvent>::Done(
                Err(CommandBusError::PublishFragmentCommand(
                    PublishFragmentCommandError::InvalidState("fragment is already published"),
                )),
            )
            &&& (found matches Some(f) && f.author_id == user && f.parent_id is Some && f.state
                != FragmentState::Draft && f.state != FragmentState::Approved && f.state
                != FragmentState::Published) ==> s == HandlerStep::<WriteStage, FragmentPublishedEvent>::Done(
                Err(CommandBusError::PublishFragmentCommand(
                    PublishFragmentCommandError::InvalidState("Fork can not be published"),
                )),
            )
            &&& (found matches Some(f) && f.author_id == user && f.parent_id is None && f.state
                != FragmentState::Draft && f.state != FragmentState::Published) ==> s == HandlerStep::<
                WriteStage,
                FragmentPublishedEvent,
            >::Done(
                Err(CommandBusError::PublishFragmentCommand(
                    PublishFragmentCommandError::InvalidState("Fragment can not be published"),
                )),
            )
        }),
{
}

/// An update writes the command's text: the handler asks the store to write
/// exactly when the found fragment is a draft of the user's, and what it
/// writes is that fragment with the command's content and end mark, modified
/// now. A missing fragment, a fragment that is not a draft and another
/// user's draft are refused with the matching errors.
pub proof fn lemma_update_writes_the_new_text(
    cmd: UpdateFragmentCommand,
    user: Id,
    now: DateTime,
    found: Option<Fragment>,
)
    ensures
        ({
            let s = cmd.spec_resume(user, now, WriteStage::Finding, StoreReply::Fragment(found));
            let editable = found matches Some(f) && f.author_id == user && f.state == FragmentState::Draft;
            &&& editable ==> s == HandlerStep::<WriteStage, FragmentUpdatedEvent>::Call(
                WriteStage::Writing,
                StoreCall::UpdateFragment(
                    Fragment {
                        content: cmd.content,
                        end: cmd.end,
                        last_modified_at: now,
                        ..found->Some_0
                    },
                ),
            )
            &&& found is None ==> s == HandlerStep::<WriteStage, FragmentUpdatedEvent>::Done(
                Err(CommandBusError::UpdateFragmentCommand(
                    UpdateFragmentCommandError::FragmentNotFound(cmd.fragment_id),
                )),
            )
            &&& (found matches Some(f) && f.state != FragmentState::Draft) ==> s == HandlerStep::<
                WriteStage,
                FragmentUpdatedEvent,
            >::Done(
                Err(CommandBusError::UpdateFragmentCommand(
                    UpdateFragmentCommandError::NonEditableFragment(cmd.fragment_id),
                )),
            )
            &&& (found matches Some(f) && f.state == FragmentState::Draft && f.author_id != user) ==> s
                == HandlerStep::<WriteStage, FragmentUpdatedEvent>::Done(
                Err(CommandBusError::UpdateFragmentCommand(
                    UpdateFragmentCommandError::UserWithoutPermission(user),
                )),
            )
        }),
{
}

/// A like goes on past the fragment only for a published one: on the
/// fragment read under the command's id, the handler asks for the user's
/// like of it exactly when it exists and is Published; a missing fragment is
/// refused as not found and a fragment in any other state as not published.
pub proof fn lemma_like_only_a_published_fragment(
    cmd: LikeFragmentCommand,
    user: Id,
    now: DateTime,
    found: Option<Fragment>,
)
    ensures
        ({
            let s = cmd.spec_resume(user, now, LikeStage::FindingFragment, StoreReply::Fragment(found));
            &&& found is None ==> s == HandlerStep::<LikeStage, FragmentLikedEvent>::Done(
                Err(CommandBusError::LikeFragmentCommand(
                    LikeFragmentCommandError::FragmentNotFound(cmd.fragment_id),
                )),
            )
            &&& (found matches Some(f) && f.state != FragmentState::Published) ==> s == HandlerStep::<
                LikeStage,
                FragmentLikedEvent,
            >::Done(
                Err(CommandBusError::LikeFragmentCommand(
                    LikeFragmentCommandError::FragmentNotPublished(cmd.fragment_id),
                )),
            )
            &&& (found matches Some(f) && f.state == FragmentState::Published) ==> s == HandlerStep::<
                LikeStage,
                FragmentLikedEvent,
            >::Call(
                LikeStage::FindingLike(found->Some_0),
                StoreCall::FindLike(found->Some_0.id, user),
            )
        }),
{
}

/// A like is saved only when the user has none: after the fragment, the
/// handler saves the user's like of that fragment, made now, exactly when the
/// store holds no like of it by the user, ends with nothing when it holds
/// one, and reports the like as the store saved it.
pub proof fn lemma_like_saves_one_like(
    cmd: LikeFragmentCommand,
    user: Id,
    now: DateTime,
    fragment: Fragment,
    existing: Option<Like>,
    saved: Like,
    saved_at: DateTime,
)
    ensures
        existing is None ==> cmd.spec_resume(
            user,
            now,
            LikeStage::FindingLike(fragment),
            StoreReply::Like(existing),
        ) == HandlerStep::<LikeStage, FragmentLikedEvent>::Call(
            LikeStage::SavingLike,
            StoreCall::SaveLike(Like { fragment_id: fragment.id, user_id: user, created_at: now }),
        ),
        (existing matches Some(l) && l.fragment_id == fragment.id && l.user_id == user) ==> cmd.spec_resume(
            user,
            now,
            LikeStage::FindingLike(fragment),
            StoreReply::Like(existing),
        ) == HandlerStep::<LikeStage, FragmentLikedEvent>::Done(Ok(None)),
        cmd.spec_resume(user, saved_at, LikeStage::SavingLike, StoreReply::SavedLike(saved))
            == HandlerStep::<LikeStage, FragmentLikedEvent>::Done(
            Ok(
                Some(
                    FragmentLikedEvent {
                        fragment_id: saved.fragment_id,
                        user_id: saved.user_id,
                        timestamp: saved.created_at,
                    },
                ),
            ),
        ),
{
}

/// A fork is made only of a published parent: the parent check accepts
/// exactly a found parent that is Published, written by someone else and not
/// the end of the story, and gives back that parent; a missing parent, an
/// unpublished one, one's own and an end fragment are refused with the
/// matching errors, in that order.
pub proof fn lemma_fork_only_of_a_published_parent(
    cmd: ForkFragmentCommand,
    user: Id,
    found: Option<Fragment>,
)
    ensures
        ({
            let r = cmd.spec_check_parent(user, found);
            &&& r matches Ok(p) ==> found == Some(p) && p.state == FragmentState::Published
                && p.author_id != user && !p.end
            &&& found is None ==> r == Err::<Fragment, _>(
                ForkFragmentCommandError::ParentFragmentNotFound(cmd.fragment_id),
            )
            &&& (found matches Some(p) && p.state != FragmentState::Published) ==> r == Err::<
                Fragment,
                _,
            >(ForkFragmentCommandError::InvalidState("Parent fragment is not published"))
            &&& (found matches Some(p) && p.state == FragmentState::Published && p.author_id == user)
                ==> r == Err::<Fragment, _>(
                ForkFragmentCommandError::Forbidden("Cannot fork your own fragment"),
            )
            &&& (found matches Some(p) && p.state == FragmentState::Published && p.author_id != user
                && p.end) ==> r == Err::<Fragment, _>(
                ForkFragmentCommandError::Forbidden("Cannot fork an end fragment"),
            )
            &&& (found matches Some(p) && p.state == FragmentState::Published && p.author_id != user
                && !p.end) ==> r == Ok::<_, ForkFragmentCommandError>(found->Some_0)
        }),
{
}

/// Submission writes only the author's draft fork: the handler asks the
/// store to write exactly when the found fragment is the user's draft with a
/// parent, and writes it Submitted and modified now; otherwise it refuses
/// with the matching errors, authorship first. It reports the fork as the
/// store wrote it.
pub proof fn lemma_submit_writes_only_the_authors_draft_fork(
    cmd: SubmitForkCommand,
    user: Id,
    now: DateTime,
    found: Option<Fragment>,
    stored: Fragment,
)
    ensures
        ({
            let s = cmd.spec_resume(user, now, WriteStage::Finding, StoreReply::Fragment(found));
            &&& found is None ==> s == HandlerStep::<WriteStage, ForkSubmittedEvent>::Done(
                Err(CommandBusError::SubmitForkCommand(SubmitForkCommandError::ForkNotFound(cmd.fragment_id))),
            )
            &&& (found matches Some(f) && f.author_id != user) ==> s == HandlerStep::<
                WriteStage,
                ForkSubmittedEvent,
            >::Done(
                Err(CommandBusError::SubmitForkCommand(
                    SubmitForkCommandError::Forbidden("Only the fork author can submit it"),
                )),
            )
            &&& (found matches Some(f) && f.author_id == user && !(f.parent_id is Some && f.state
                == FragmentState::Draft)) ==> s == HandlerStep::<WriteStage, ForkSubmittedEvent>::Done(
                Err(CommandBusError::SubmitForkCommand(
                    SubmitForkCommandError::InvalidState("Fork can not be submitted"),
                )),
            )
            &&& (found matches Some(f) && f.author_id == user && f.parent_id is Some && f.state
                == FragmentState::Draft) ==> s == HandlerStep::<WriteStage, ForkSubmittedEvent>::Call(
                WriteStage::Writing,
                StoreCall::UpdateFragment(
                    Fragment { state: FragmentState::Submitted, last_modified_at: now, ..found->Some_0 },
                ),
            )
            &&& cmd.spec_resume(user, now, WriteStage::Writing, StoreReply::Saved(stored))
                == HandlerStep::<WriteStage, ForkSubmittedEvent>::Done(
                Ok(
                    Some(
                        ForkSubmittedEvent {
                            fragment_id: stored.id,
                            timestamp: stored.last_modified_at,
                            actor: Actor::User(stored.author_id),
                        },
                    ),
                ),
            )
        }),
{
}

/// Publication and update report the fragment as the store wrote it, and
/// creation the fragment as the store saved it.
pub proof fn lemma_writes_report_the_stored_fragment(
    publish: PublishFragmentCommand,
    update: UpdateFragmentCommand,
    create: CreateFragmentCommand,
    user: Id,
    now: DateTime,
    stored: Fragment,
)
    ensures
        publish.spec_resume(user, now, WriteStage::Writing, StoreReply::Saved(stored))
            == HandlerStep::<WriteStage, FragmentPublishedEvent>::Done(
            Ok(
                Some(
                    FragmentPublishedEvent {
                        fragment_id: stored.id,
                        timestamp: stored.last_modified_at,
                        actor: Actor::User(stored.author_id),
                    },
                ),
            ),
        ),
        update.spec_resume(user, now, WriteStage::Writing, StoreReply::Saved(stored))
            == HandlerStep::<WriteStage, FragmentUpdatedEvent>::Done(
            Ok(
                Some(
                    FragmentUpdatedEvent {
                        fragment_id: stored.id,
                        timestamp: stored.last_modified_at,
                        content: stored.content,
                        end: stored.end,
                        actor: Actor::User(stored.author_id),
                    },
                ),
            ),
        ),
        create.spec_resume(WriteStage::Writing, StoreReply::Saved(stored))
            == HandlerStep::<WriteStage, FragmentCreatedEvent>::Done(
            Ok(
                Some(
                    FragmentCreatedEvent {
                        fragment_id: stored.id,
                        user_id: stored.author_id,
                        content: stored.content,
                        end: stored.end,
                        timestamp: stored.created_at,
                    },
                ),
            ),
        ),
{
}

/// The fork that the fork handler saves is the command's fork of the checked
/// parent: the user's draft with the command's id, text and end mark, under
/// the command's parent, with the parent's path followed by the parent,
/// created and modified now.
pub proof fn lemma_fork_saves_the_commands_fork(
    cmd: ForkFragmentCommand,
    user: Id,
    parent: Fragment,
    now: DateTime,
    f: Fragment,
)
    requires
        cmd.spec_is_fork_of(user, parent, now, f),
    ensures
        f.id == cmd.fragment_id,
        f.author_id == user,
        f.content == cmd.content,
        f.state == FragmentState::Draft,
        f.parent_id == Some(cmd.parent_fragment_id),
        f.path@ == parent.path@.push(cmd.parent_fragment_id),
        f.end == cmd.end,
        f.created_at == now,
        f.last_modified_at == now,
{
}

/// A dislike deletes only the user's like of a published fragment: the
/// fragment read is checked as for a like; with no like the handler ends
/// with nothing, with the user's like it deletes that like, and it reports
/// the dislike, dated now, exactly when the store removed a like.
pub proof fn lemma_dislike_deletes_the_users_like(
    cmd: DislikeFragmentCommand,
    user: Id,
    now: DateTime,
    found: Option<Fragment>,
    fragment_id: Id,
    existing: Option<Like>,
    removed: bool,
)
    ensures
        ({
            let s = cmd.spec_resume(user, now, DislikeStage::FindingFragment, StoreReply::Fragment(found));
            &&& found is None ==> s == HandlerStep::<DislikeStage, FragmentDislikedEvent>::Done(
                Err(CommandBusError::DislikeFragmentCommand(
                    DislikeFragmentCommandError::FragmentNotFound(cmd.fragment_id),
                )),
            )
            &&& (found matches Some(f) && f.state != FragmentState::Published) ==> s == HandlerStep::<
                DislikeStage,
                FragmentDislikedEvent,
            >::Done(
                Err(CommandBusError::DislikeFragmentCommand(
                    DislikeFragmentCommandError::FragmentNotPublished(cmd.fragment_id),
                )),
            )
            &&& (found matches Some(f) && f.state == FragmentState::Published) ==> s == HandlerStep::<
                DislikeStage,
                FragmentDislikedEvent,
            >::Call(
                DislikeStage::FindingLike(found->Some_0.id),
                StoreCall::FindLike(found->Some_0.id, user),
            )
        }),
        ({
            let s = cmd.spec_resume(user, now, DislikeStage::FindingLike(fragment_id), StoreReply::Like(existing));
            &&& existing is None ==> s == HandlerStep::<DislikeStage, FragmentDislikedEvent>::Done(Ok(None))
            &&& (existing matches Some(l) && l.fragment_id == fragment_id && l.user_id == user) ==> s
                == HandlerStep::<DislikeStage, FragmentDislikedEvent>::Call(
                DislikeStage::DeletingLike,
                StoreCall::DeleteLike(existing->Some_0),
            )
        }),
        cmd.spec_resume(user, now, DislikeStage::DeletingLike, StoreReply::Deleted(removed))
            == HandlerStep::<DislikeStage, FragmentDislikedEvent>::Done(
            Ok(
                if removed {
                    Some(FragmentDislikedEvent { fragment_id: cmd.fragment_id, timestamp: now, user_id: user })
                } else {
                    None
                },
            ),
        ),
{
}

/// A follow is saved only when there is none: the handler asks for the
/// user's follow of the command's user, saves that follow, made now, exactly
/// when the store holds none, ends with nothing when it holds one, and
/// reports the follow as the store saved it.
pub proof fn lemma_follow_saves_one_follow(
    cmd: FollowUserCommand,
    user: Id,
    now: DateTime,
    existing: Option<Follow>,
    saved: Follow,
)
    ensures
        existing is None ==> cmd.spec_resume(user, now, FollowStage::FindingFollow, StoreReply::Follow(existing))
            == HandlerStep::<FollowStage, UserFollowedEvent>::Call(
            FollowStage::SavingFollow,
            StoreCall::SaveFollow(
                Follow { follower_id: user, following_id: cmd.following_user_id, created_at: now },
            ),
        ),
        (existing matches Some(f) && f.follower_id == user && f.following_id == cmd.following_user_id)
            ==> cmd.spec_resume(user, now, FollowStage::FindingFollow, StoreReply::Follow(existing))
            == HandlerStep::<FollowStage, UserFollowedEvent>::Done(Ok(None)),
        cmd.spec_resume(user, now, FollowStage::SavingFollow, StoreReply::SavedFollow(saved))
            == HandlerStep::<FollowStage, UserFollowedEvent>::Done(
            Ok(
                Some(
                    UserFollowedEvent {
                        follower_id: saved.follower_id,
                        following_id: saved.following_id,
                        timestamp: saved.created_at,
                    },
                ),
            ),
        ),
{
}

/// An unfollow deletes only the user's follow: with no follow the handler
/// ends with nothing, with the user's follow of the command's user it
/// deletes that follow, and it reports the unfollowing, dated with the
/// follow's creation, exactly when the store removed it.
pub proof fn lemma_unfollow_deletes_the_users_follow(
    cmd: UnfollowUserCommand,
    user: Id,
    existing: Option<Follow>,
    follow: Follow,
    removed: bool,
)
    ensures
        existing is None ==> cmd.spec_resume(user, UnfollowStage::FindingFollow, StoreReply::Follow(existing))
            == HandlerStep::<UnfollowStage, UserUnfollowedEvent>::Done(Ok(None)),
        (existing matches Some(f) && f.follower_id == user && f.following_id == cmd.following_user_id)
            ==> cmd.spec_resume(user, UnfollowStage::FindingFollow, StoreReply::Follow(existing))
            == HandlerStep::<UnfollowStage, UserUnfollowedEvent>::Call(
            UnfollowStage::DeletingFollow(existing->Some_0),
            StoreCall::DeleteFollow(existing->Some_0),
        ),
        (follow.follower_id == user && follow.following_id == cmd.following_user_id) ==> cmd.spec_resume(
            user,
            UnfollowStage::DeletingFollow(follow),
            StoreReply::Deleted(removed),
        ) == HandlerStep::<UnfollowStage, UserUnfollowedEvent>::Done(
            Ok(
                if removed {
                    Some(
                        UserUnfollowedEvent {
                            follower_id: user,
                            following_id: cmd.following_user_id,
                            timestamp: follow.created_at,
                        },
                    )
                } else {
                    None
                },
            ),
        ),
{
}

} // verus!
