use tales_tree::command_bus::command::create_fragment::CreateFragmentCommand;
use tales_tree::command_bus::command::dislike_fragment::{DislikeFragmentCommand, DislikeStage};
use tales_tree::command_bus::command::follow_user::{FollowStage, FollowUserCommand};
use tales_tree::command_bus::command::fork_fragment::{ForkFragmentCommand, ForkFragmentCommandError, ForkStage};
use tales_tree::command_bus::command::like_fragment::{LikeFragmentCommand, LikeFragmentCommandError, LikeStage};
use tales_tree::command_bus::command::review_fork::{ReviewForkCommand, ReviewStage};
use tales_tree::command_bus::command::submit_fork::SubmitForkCommand;
use tales_tree::command_bus::command::unfollow_user::{UnfollowStage, UnfollowUserCommand};
use tales_tree::command_bus::error::CommandBusError;
use tales_tree::command_bus::handler::{HandlerStep, StoreCall, StoreReply, WriteStage};
use tales_tree::commons::actor::Actor;
use tales_tree::commons::clock::DateTime;
use tales_tree::commons::fragment::Content;
use tales_tree::commons::id::Id;
use tales_tree::commons::review::Comment;
use tales_tree::events::{
    ForkSubmittedEvent, FragmentCreatedEvent, FragmentDislikedEvent, FragmentForkReviewedEvent,
    FragmentForkedEvent, FragmentLikedEvent, UserFollowedEvent, UserUnfollowedEvent,
};
use tales_tree::storage::model::follow::Follow;
use tales_tree::storage::model::fragment::{Fragment, FragmentState, Path};
use tales_tree::storage::model::like::Like;
use tales_tree::storage::model::review::{Review, ReviewAction};

const AUTHOR: u128 = 10;
const READER: u128 = 11;

fn t(secs: i64) -> DateTime {
    DateTime::from_timestamp(secs, 0)
}

fn id(v: u128) -> Id {
    Id::from_u128(v)
}

fn frag(fid: u128, author: u128, state: FragmentState, parent: Option<u128>) -> Fragment {
    Fragment {
        id: id(fid),
        author_id: id(author),
        content: Content::from_str("text"),
        state,
        parent_id: parent.map(id),
        path: match parent {
            Some(p) => Path::empty().append(id(p)),
            None => Path::empty(),
        },
        end: false,
        created_at: t(1),
        last_modified_at: t(2),
    }
}

#[test]
fn machine_like_reads_then_saves_then_reports_the_saved_like() {
    let cmd = LikeFragmentCommand::new(id(1));
    let user = id(READER);
    let HandlerStep::Call(stage, call) = cmd.start() else { panic!("a call first") };
    assert!(matches!(call, StoreCall::FindFragment(f) if f == id(1)));
    let step = cmd.resume(user, t(5), stage, StoreReply::Fragment(Some(frag(1, AUTHOR, FragmentState::Published, None))));
    let HandlerStep::Call(stage, call) = step else { panic!("the like is read next") };
    assert!(matches!(call, StoreCall::FindLike(f, u) if f == id(1) && u == user));
    let step = cmd.resume(user, t(5), stage, StoreReply::Like(None));
    let HandlerStep::Call(stage, call) = step else { panic!("the like is saved next") };
    let planned = Like { fragment_id: id(1), user_id: user, created_at: t(5) };
    assert!(matches!(call, StoreCall::SaveLike(l) if l == planned));
    let stored = Like { fragment_id: id(1), user_id: user, created_at: t(6) };
    let step = cmd.resume(user, t(7), stage, StoreReply::SavedLike(stored));
    match step {
        HandlerStep::Done(Ok(Some(e))) => {
            assert_eq!(e, FragmentLikedEvent { fragment_id: id(1), user_id: user, timestamp: t(6) })
        }
        other => panic!("unexpected {other:?}"),
    }
}

#[test]
fn machine_like_stops_on_refusal_existing_like_and_odd_replies() {
    let cmd = LikeFragmentCommand::new(id(1));
    let user = id(READER);
    let step = cmd.resume(user, t(5), LikeStage::FindingFragment, StoreReply::Fragment(None));
    assert!(matches!(
        step,
        HandlerStep::Done(Err(CommandBusError::LikeFragmentCommand(LikeFragmentCommandError::FragmentNotFound(f)))) if f == id(1)
    ));
    let existing = Like { fragment_id: id(1), user_id: user, created_at: t(3) };
    let fragment = frag(1, AUTHOR, FragmentState::Published, None);
    let step = cmd.resume(user, t(5), LikeStage::FindingLike(fragment), StoreReply::Like(Some(existing)));
    assert!(matches!(step, HandlerStep::Done(Ok(None))));
    let other = Like { fragment_id: id(2), user_id: user, created_at: t(3) };
    let fragment = frag(1, AUTHOR, FragmentState::Published, None);
    let step = cmd.resume(user, t(5), LikeStage::FindingLike(fragment), StoreReply::Like(Some(other)));
    assert!(matches!(step, HandlerStep::Done(Err(CommandBusError::UnexpectedReply))));
    let step = cmd.resume(user, t(5), LikeStage::SavingLike, StoreReply::Deleted(true));
    assert!(matches!(step, HandlerStep::Done(Err(CommandBusError::UnexpectedReply))));
}

#[test]
fn machine_dislike_deletes_the_found_like() {
    let cmd = DislikeFragmentCommand::new(id(1));
    let user = id(READER);
    let HandlerStep::Call(stage, _) = cmd.start() else { panic!("a call first") };
    let step = cmd.resume(user, t(5), stage, StoreReply::Fragment(Some(frag(1, AUTHOR, FragmentState::Published, None))));
    let HandlerStep::Call(stage, call) = step else { panic!("the like is read next") };
    assert!(matches!(call, StoreCall::FindLike(f, u) if f == id(1) && u == user));
    let like = Like { fragment_id: id(1), user_id: user, created_at: t(3) };
    let step = cmd.resume(user, t(5), stage, StoreReply::Like(Some(like)));
    let HandlerStep::Call(stage, call) = step else { panic!("the like is deleted next") };
    assert!(matches!(call, StoreCall::DeleteLike(l) if l == like));
    match cmd.resume(user, t(8), stage, StoreReply::Deleted(true)) {
        HandlerStep::Done(Ok(Some(e))) => {
            assert_eq!(e, FragmentDislikedEvent { fragment_id: id(1), timestamp: t(8), user_id: user })
        }
        other => panic!("unexpected {other:?}"),
    }
    let step = cmd.resume(user, t(8), DislikeStage::DeletingLike, StoreReply::Deleted(false));
    assert!(matches!(step, HandlerStep::Done(Ok(None))));
    let step = cmd.resume(user, t(8), DislikeStage::FindingLike(id(1)), StoreReply::Like(None));
    assert!(matches!(step, HandlerStep::Done(Ok(None))));
}

#[test]
fn machine_follow_and_unfollow() {
    let user = id(READER);
    let other = id(AUTHOR);
    let follow = FollowUserCommand::new(other);
    let HandlerStep::Call(stage, call) = follow.start(user) else { panic!("a call first") };
    assert!(matches!(call, StoreCall::FindFollow(a, b) if a == user && b == other));
    let HandlerStep::Call(stage, call) = follow.resume(user, t(4), stage, StoreReply::Follow(None)) else {
        panic!("the follow is saved next")
    };
    let planned = Follow { follower_id: user, following_id: other, created_at: t(4) };
    assert!(matches!(call, StoreCall::SaveFollow(f) if f == planned));
    match follow.resume(user, t(9), stage, StoreReply::SavedFollow(planned)) {
        HandlerStep::Done(Ok(Some(e))) => {
            assert_eq!(e, UserFollowedEvent { follower_id: user, following_id: other, timestamp: t(4) })
        }
        other => panic!("unexpected {other:?}"),
    }
    let step = follow.resume(user, t(4), FollowStage::FindingFollow, StoreReply::Follow(Some(planned)));
    assert!(matches!(step, HandlerStep::Done(Ok(None))));

    let unfollow = UnfollowUserCommand::new(other);
    let HandlerStep::Call(stage, _) = unfollow.start(user) else { panic!("a call first") };
    let HandlerStep::Call(stage, call) = unfollow.resume(user, stage, StoreReply::Follow(Some(planned))) else {
        panic!("the follow is deleted next")
    };
    assert!(matches!(call, StoreCall::DeleteFollow(f) if f == planned));
    match unfollow.resume(user, stage, StoreReply::Deleted(true)) {
        HandlerStep::Done(Ok(Some(e))) => {
            assert_eq!(e, UserUnfollowedEvent { follower_id: user, following_id: other, timestamp: t(4) })
        }
        other => panic!("unexpected {other:?}"),
    }
    let step = unfollow.resume(user, UnfollowStage::FindingFollow, StoreReply::Follow(None));
    assert!(matches!(step, HandlerStep::Done(Ok(None))));
}

#[test]
fn machine_create_and_submit_write_then_report_the_stored_fragment() {
    let user = id(AUTHOR);
    let create = CreateFragmentCommand::new(id(1), "hello".to_string(), true);
    let HandlerStep::Call(stage, call) = create.start(user, t(3)) else { panic!("a save first") };
    let StoreCall::SaveFragment(f) = call else { panic!("the fragment is saved") };
    assert_eq!(f.state(), FragmentState::Draft);
    assert_eq!(f.created_at(), t(3));
    match create.resume(stage, StoreReply::Saved(f)) {
        HandlerStep::Done(Ok(Some(e))) => assert_eq!(
            e,
            FragmentCreatedEvent {
                fragment_id: id(1),
                user_id: user,
                content: Content::from_str("hello"),
                end: true,
                timestamp: t(3)
            }
        ),
        other => panic!("unexpected {other:?}"),
    }

    let submit = SubmitForkCommand::new(id(1));
    let HandlerStep::Call(stage, _) = submit.start() else { panic!("a read first") };
    let step = submit.resume(user, t(9), stage, StoreReply::Fragment(Some(frag(1, AUTHOR, FragmentState::Draft, Some(2)))));
    let HandlerStep::Call(stage, StoreCall::UpdateFragment(f)) = step else { panic!("the fork is written next") };
    assert_eq!(f.state(), FragmentState::Submitted);
    assert_eq!(f.last_modified_at(), t(9));
    match submit.resume(user, t(10), stage, StoreReply::Saved(f)) {
        HandlerStep::Done(Ok(Some(e))) => assert_eq!(
            e,
            ForkSubmittedEvent { fragment_id: id(1), timestamp: t(9), actor: Actor::User(user) }
        ),
        other => panic!("unexpected {other:?}"),
    }
    let step = submit.resume(user, t(9), WriteStage::Writing, StoreReply::Friends(true));
    assert!(matches!(step, HandlerStep::Done(Err(CommandBusError::UnexpectedReply))));
}

#[test]
fn machine_fork_checks_parent_then_friendship_then_saves() {
    let user = id(READER);
    let cmd = ForkFragmentCommand::new(id(5), id(1), Content::from_str("more"), false);
    let HandlerStep::Call(stage, call) = cmd.start() else { panic!("a read first") };
    assert!(matches!(call, StoreCall::FindFragment(f) if f == id(1)));
    let step = cmd.resume(user, t(4), stage, StoreReply::Fragment(Some(frag(1, AUTHOR, FragmentState::Published, None))));
    let HandlerStep::Call(stage, call) = step else { panic!("friendship is read next") };
    assert!(matches!(call, StoreCall::FollowEachOther(a, b) if a == id(AUTHOR) && b == user));
    let step = cmd.resume(user, t(4), stage, StoreReply::Friends(true));
    let HandlerStep::Call(stage, StoreCall::SaveFragment(f)) = step else { panic!("the fork is saved next") };
    assert_eq!(f.parent_id(), Some(id(1)));
    assert_eq!(f.path().ids, vec![id(1)]);
    match cmd.resume(user, t(6), stage, StoreReply::Saved(f)) {
        HandlerStep::Done(Ok(Some(e))) => assert_eq!(
            e,
            FragmentForkedEvent {
                fragment_id: id(5),
                user_id: user,
                content: Content::from_str("more"),
                end: false,
                parent_fragment_id: id(1),
                timestamp: t(4)
            }
        ),
        other => panic!("unexpected {other:?}"),
    }
    let parent = frag(1, AUTHOR, FragmentState::Published, None);
    let step = cmd.resume(user, t(4), ForkStage::CheckingFriends(parent), StoreReply::Friends(false));
    assert!(matches!(
        step,
        HandlerStep::Done(Err(CommandBusError::ForkFragmentCommand(ForkFragmentCommandError::Forbidden(
            "You must be fragment author friend"
        ))))
    ));
    let step = cmd.resume(user, t(4), ForkStage::SavingFork, StoreReply::Saved(frag(5, READER, FragmentState::Draft, None)));
    assert!(matches!(step, HandlerStep::Done(Err(CommandBusError::UnexpectedReply))));
}

#[test]
fn machine_review_saves_the_review_then_the_fork() {
    let reviewer = id(AUTHOR);
    let cmd = ReviewForkCommand::new(id(77), id(5), ReviewAction::Approve, Some(Comment::from_str("ok")));
    let HandlerStep::Call(stage, _) = cmd.start() else { panic!("a read first") };
    let step = cmd.resume(reviewer, t(4), stage, StoreReply::Fragment(Some(frag(5, READER, FragmentState::Submitted, Some(1)))));
    let HandlerStep::Call(stage, call) = step else { panic!("the parent is read next") };
    assert!(matches!(call, StoreCall::FindFragment(f) if f == id(1)));
    let step = cmd.resume(reviewer, t(4), stage, StoreReply::Fragment(Some(frag(1, AUTHOR, FragmentState::Published, None))));
    let HandlerStep::Call(stage, StoreCall::SaveReview(review)) = step else { panic!("the review is saved next") };
    assert_eq!(review.reviewer_id, reviewer);
    let stored = Review {
        id: id(77),
        fragment_id: id(5),
        reviewer_id: reviewer,
        comment: Some(Comment::from_str("ok")),
        created_at: t(4),
        action: ReviewAction::Approve,
    };
    let HandlerStep::Call(stage, StoreCall::UpdateFragment(fork)) = cmd.resume(reviewer, t(5), stage, StoreReply::SavedReview(stored))
    else {
        panic!("the fork is written next")
    };
    assert_eq!(fork.state(), FragmentState::Approved);
    match cmd.resume(reviewer, t(6), stage, StoreReply::Saved(fork)) {
        HandlerStep::Done(Ok(Some(e))) => assert_eq!(
            e,
            FragmentForkReviewedEvent {
                fragment_id: id(5),
                timestamp: t(4),
                comment: Some(Comment::from_str("ok")),
                action: ReviewAction::Approve,
                actor: Actor::User(reviewer)
            }
        ),
        other => panic!("unexpected {other:?}"),
    }
    let fork = frag(5, READER, FragmentState::Submitted, Some(1));
    let step = cmd.resume(reviewer, t(4), ReviewStage::FindingParent(fork), StoreReply::Fragment(Some(frag(2, AUTHOR, FragmentState::Published, None))));
    assert!(matches!(step, HandlerStep::Done(Err(CommandBusError::UnexpectedReply))));
}
