//! What every command does to a fragment, whichever command it is: it moves
//! the fragment only along the fragment's lifecycle, it keeps the fragment's
//! identity, and only the owner (or, for a review, the parent's author)
//! makes the change. What a like or a follow writes to the store, its
//! counterpart takes back. And what the fragment's predicates and each
//! command's kind and accepted actors are.

use vstd::prelude::*;
use crate::command_bus::command::Command;
use crate::command_bus::command::create_fragment::CreateFragmentCommand;
use crate::command_bus::command::dislike_fragment::DislikeFragmentCommand;
use crate::command_bus::command::fork_fragment::ForkFragmentCommand;
use crate::command_bus::command::follow_user::FollowUserCommand;
use crate::command_bus::command::like_fragment::LikeFragmentCommand;
use crate::command_bus::command::publish_fragment::PublishFragmentCommand;
use crate::command_bus::command::review_fork::ReviewForkCommand;
use crate::command_bus::command::submit_fork::SubmitForkCommand;
use crate::command_bus::command::unfollow_user::UnfollowUserCommand;
use crate::command_bus::command::update_fragment::UpdateFragmentCommand;
use crate::commons::actor::Actor;
use crate::commons::clock::DateTime;
use crate::commons::commands::CommandType;
use crate::commons::id::Id;
use crate::events::{FragmentDislikedEvent, UserUnfollowedEvent};
use crate::storage::model::follow::{Follow, find_follow, save_follow, delete_follow};
use crate::storage::model::fragment::{Fragment, FragmentState};
use crate::storage::model::like::{Like, find_like, save_like, delete_like};
use crate::storage::model::review::ReviewAction;

verus! {

/// The lifecycle of a fragment. A draft may be edited. A root fragment is
/// published from its draft. A fork is submitted from its draft, then, while
/// it awaits its review (submitted, or marked as waiting for review),
/// approved or rejected by that review, and published once approved.
pub open spec fn lifecycle_allows(from: FragmentState, to: FragmentState, fork: bool) -> bool {
    ||| (from == FragmentState::Draft && to == FragmentState::Draft)
    ||| (!fork && from == FragmentState::Draft && to == FragmentState::Published)
    ||| (fork && from == FragmentState::Draft && to == FragmentState::Submitted)
    ||| (fork && (from == FragmentState::Submitted || from == FragmentState::WaitingReview) && (to
        == FragmentState::Approved || to == FragmentState::Rejected))
    ||| (fork && from == FragmentState::Approved && to == FragmentState::Published)
}

/// The written fragment is the found one with the same id, author, parent,
/// path and creation time.
pub open spec fn keeps_identity(before: Fragment, after: Fragment) -> bool {
    &&& after.id == before.id
    &&& after.author_id == before.author_id
    &&& after.parent_id == before.parent_id
    &&& after.path == before.path
    &&& after.created_at == before.created_at
}

/// An update succeeds only for the author's draft, leaves it a draft, and
/// keeps the fragment's identity.
pub proof fn lemma_update_follows_lifecycle(
    cmd: UpdateFragmentCommand,
    user: Id,
    found: Option<Fragment>,
    now: DateTime,
)
    requires
        cmd.spec_plan(user, found, now) is Ok,
    ensures
        found matches Some(f) && f.author_id == user && lifecycle_allows(
            f.state,
            cmd.spec_plan(user, found, now)->Ok_0.state,
            f.spec_is_fork(),
        ) && keeps_identity(f, cmd.spec_plan(user, found, now)->Ok_0),
{
}

/// A publication succeeds only for the author's fragment, follows the
/// lifecycle (so a fork is published only once approved), and keeps the
/// fragment's identity.
pub proof fn lemma_publish_follows_lifecycle(
    cmd: PublishFragmentCommand,
    user: Id,
    found: Option<Fragment>,
    now: DateTime,
)
    requires
        cmd.spec_plan(user, found, now) is Ok,
    ensures
        found matches Some(f) && f.author_id == user && lifecycle_allows(
            f.state,
            cmd.spec_plan(user, found, now)->Ok_0.state,
            f.spec_is_fork(),
        ) && keeps_identity(f, cmd.spec_plan(user, found, now)->Ok_0),
        found matches Some(f) && (f.spec_is_fork() ==> f.state == FragmentState::Approved),
{
}

/// A submission succeeds only for the author's draft fork, follows the
/// lifecycle, and keeps the fork's identity.
pub proof fn lemma_submit_follows_lifecycle(
    cmd: SubmitForkCommand,
    user: Id,
    found: Option<Fragment>,
    now: DateTime,
)
    requires
        cmd.spec_plan(user, found, now) is Ok,
    ensures
        found matches Some(f) && f.author_id == user && f.spec_is_fork() && lifecycle_allows(
            f.state,
            cmd.spec_plan(user, found, now)->Ok_0.state,
            f.spec_is_fork(),
        ) && keeps_identity(f, cmd.spec_plan(user, found, now)->Ok_0),
{
}

/// A review succeeds only for a fork that waits for review, and only by the
/// author of its parent (the fragment that the fork names as its parent); it
/// follows the lifecycle, approves the fork exactly when the verdict is an
/// approval, keeps the fork's identity, and records who judged the fork and
/// which fork was judged.
pub proof fn lemma_review_follows_lifecycle(
    cmd: ReviewForkCommand,
    user: Id,
    found: Option<Fragment>,
    parent: Fragment,
    now: DateTime,
)
    requires
        cmd.spec_check(found) is Ok,
        cmd.spec_check(found)->Ok_0.parent_id == Some(parent.id),
        cmd.spec_plan(user, cmd.spec_check(found)->Ok_0, parent, now) is Ok,
    ensures
        ({
            let fork = cmd.spec_check(found)->Ok_0;
            let (review, after) = cmd.spec_plan(user, fork, parent, now)->Ok_0;
            &&& found == Some(fork)
            &&& fork.parent_id == Some(parent.id)
            &&& parent.author_id == user
            &&& fork.spec_is_fork()
            &&& lifecycle_allows(fork.state, after.state, true)
            &&& (after.state == FragmentState::Approved <==> cmd.action == ReviewAction::Approve)
            &&& keeps_identity(fork, after)
            &&& review.reviewer_id == user
            &&& review.fragment_id == cmd.fragment_id
        }),
{
    let fork = cmd.spec_check(found)->Ok_0;
    assert(found == Some(fork));
}

/// Dislike undoes like: when `user` has no like of `fragment` in the store,
/// a like of it by the user writes one; the dislike of the same fragment then
/// finds that like, deletes it, reports the dislike, and leaves the like rows
/// as they were before the like.
pub proof fn lemma_dislike_undoes_like(
    like: LikeFragmentCommand,
    dislike: DislikeFragmentCommand,
    user: Id,
    fragment: Fragment,
    rows: Map<(Id, Id), Like>,
    liked_at: DateTime,
    disliked_at: DateTime,
)
    requires
        like.fragment_id == fragment.id,
        dislike.fragment_id == fragment.id,
        find_like(rows, fragment.id, user) is None,
    ensures
        ({
            let written = like.spec_plan(user, fragment, find_like(rows, fragment.id, user), liked_at);
            let liked = save_like(rows, written->Some_0);
            let found = find_like(liked, fragment.id, user);
            let (disliked, deleted) = delete_like(liked, found->Some_0);
            &&& written == Some(Like { fragment_id: fragment.id, user_id: user, created_at: liked_at })
            &&& found == written
            &&& deleted
            &&& dislike.spec_outcome(user, Some(deleted), disliked_at) == Some(
                FragmentDislikedEvent { fragment_id: fragment.id, timestamp: disliked_at, user_id: user },
            )
            &&& disliked == rows
            &&& find_like(disliked, fragment.id, user) is None
        }),
{
    let written = like.spec_plan(user, fragment, find_like(rows, fragment.id, user), liked_at);
    let l = written->Some_0;
    let liked = save_like(rows, l);
    assert(liked.remove(l.key()) =~= rows);
}

/// Unfollow undoes follow: when `user` does not follow the other user, a
/// follow of them writes one; the unfollow of the same user then finds that
/// follow, deletes it, reports the unfollowing, and leaves the follow rows as
/// they were before the follow.
pub proof fn lemma_unfollow_undoes_follow(
    follow: FollowUserCommand,
    unfollow: UnfollowUserCommand,
    user: Id,
    rows: Map<(Id, Id), Follow>,
    followed_at: DateTime,
)
    requires
        unfollow.following_user_id == follow.following_user_id,
        find_follow(rows, user, follow.following_user_id) is None,
    ensures
        ({
            let other = follow.following_user_id;
            let written = follow.spec_plan(user, find_follow(rows, user, other), followed_at);
            let followed = save_follow(rows, written->Some_0);
            let found = find_follow(followed, user, other);
            let (unfollowed, deleted) = delete_follow(followed, found->Some_0);
            &&& written == Some(Follow { follower_id: user, following_id: other, created_at: followed_at })
            &&& found == written
            &&& deleted
            &&& unfollow.spec_outcome(user, found, deleted) == Some(
                UserUnfollowedEvent { follower_id: user, following_id: other, timestamp: followed_at },
            )
            &&& unfollowed == rows
            &&& find_follow(unfollowed, user, other) is None
        }),
{
    let other = follow.following_user_id;
    let written = follow.spec_plan(user, find_follow(rows, user, other), followed_at);
    let f = written->Some_0;
    let followed = save_follow(rows, f);
    assert(followed.remove(f.key()) =~= rows);
}

/// What the fragment's predicates mean: a fork has a parent; only a draft
/// is edited; a root draft or an approved fork is publishable; a draft fork
/// is submittable; a fork awaits review when submitted or waiting; and a
/// verdict moves a fork to Approved or Rejected.
pub proof fn lemma_fragment_predicates(f: Fragment, action: ReviewAction)
    ensures
        f.spec_is_fork() <==> f.parent_id is Some,
        f.spec_is_editable() <==> f.state == FragmentState::Draft,
        f.spec_is_publishable() <==> ((f.state == FragmentState::Draft && f.parent_id is None) || (
        f.state == FragmentState::Approved && f.parent_id is Some)),
        f.spec_is_submittable() <==> (f.parent_id is Some && f.state == FragmentState::Draft),
        f.spec_is_waiting_review() <==> (f.state == FragmentState::Submitted || f.state
            == FragmentState::WaitingReview),
        action == ReviewAction::Approve ==> FragmentState::spec_from_action(action)
            == FragmentState::Approved,
        action == ReviewAction::Reject ==> FragmentState::spec_from_action(action)
            == FragmentState::Rejected,
{
}

/// Each command's kind, and that every command is accepted from a user and
/// refused from the system. A dislike is filed under the like's kind.
pub proof fn lemma_commands_kind_and_actors(
    create: CreateFragmentCommand,
    update: UpdateFragmentCommand,
    publish: PublishFragmentCommand,
    submit: SubmitForkCommand,
    fork: ForkFragmentCommand,
    review: ReviewForkCommand,
    like: LikeFragmentCommand,
    dislike: DislikeFragmentCommand,
    follow: FollowUserCommand,
    unfollow: UnfollowUserCommand,
    user: Id,
)
    ensures
        create.spec_command_type() == CommandType::CreateFragment,
        update.spec_command_type() == CommandType::UpdateFragment,
        publish.spec_command_type() == CommandType::PublishFragment,
        submit.spec_command_type() == CommandType::SubmitFork,
        fork.spec_command_type() == CommandType::ForkFragment,
        review.spec_command_type() == CommandType::ReviewFork,
        like.spec_command_type() == CommandType::LikeFragment,
        dislike.spec_command_type() == CommandType::LikeFragment,
        follow.spec_command_type() == CommandType::FollowUser,
        unfollow.spec_command_type() == CommandType::UnfollowUser,
        create.spec_supports(Actor::User(user)) && !create.spec_supports(Actor::System),
        update.spec_supports(Actor::User(user)) && !update.spec_supports(Actor::System),
        publish.spec_supports(Actor::User(user)) && !publish.spec_supports(Actor::System),
        submit.spec_supports(Actor::User(user)) && !submit.spec_supports(Actor::System),
        fork.spec_supports(Actor::User(user)) && !fork.spec_supports(Actor::System),
        review.spec_supports(Actor::User(user)) && !review.spec_supports(Actor::System),
        like.spec_supports(Actor::User(user)) && !like.spec_supports(Actor::System),
        dislike.spec_supports(Actor::User(user)) && !dislike.spec_supports(Actor::System),
        follow.spec_supports(Actor::User(user)) && !follow.spec_supports(Actor::System),
        unfollow.spec_supports(Actor::User(user)) && !unfollow.spec_supports(Actor::System),
{
}

} // verus!
