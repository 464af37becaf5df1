use tales_tree::command_bus::command::fork_fragment::{ForkFragmentCommand, ForkFragmentCommandError};
use tales_tree::command_bus::command::publish_fragment::{
    PublishFragmentCommand, PublishFragmentCommandError,
};
use tales_tree::command_bus::command::review_fork::{ReviewForkCommand, ReviewForkCommandError};
use tales_tree::command_bus::command::submit_fork::{SubmitForkCommand, SubmitForkCommandError};
use tales_tree::command_bus::command::Command;
use tales_tree::commons::actor::Actor;
use tales_tree::commons::clock::DateTime;
use tales_tree::commons::commands::CommandType;
use tales_tree::commons::fragment::Content;
use tales_tree::commons::id::Id;
use tales_tree::commons::review::Comment;
use tales_tree::events::{
    ForkSubmittedEvent, FragmentForkReviewedEvent, FragmentForkedEvent, FragmentPublishedEvent,
};
use tales_tree::storage::model::fragment::{Fragment, FragmentState, Path};
use tales_tree::storage::model::review::ReviewAction;

fn t(secs: i64) -> DateTime {
    DateTime::from_timestamp(secs, 0)
}

fn frag(id: u128, author: u128, state: FragmentState, parent: Option<u128>, end: bool) -> Fragment {
    Fragment {
        id: Id::from_u128(id),
        author_id: Id::from_u128(author),
        content: Content::from_str("once upon a time"),
        state,
        parent_id: parent.map(Id::from_u128),
        path: match parent {
            Some(p) => Path::empty().append(Id::from_u128(p)),
            None => Path::empty(),
        },
        end,
        created_at: t(1),
        last_modified_at: t(2),
    }
}

const AUTHOR: u128 = 10;
const OTHER: u128 = 11;

#[test]
fn publish_own_draft_root() {
    let cmd = PublishFragmentCommand::new(Id::from_u128(1));
    let f = cmd.plan(Id::from_u128(AUTHOR), Some(frag(1, AUTHOR, FragmentState::Draft, None, false)), t(50)).unwrap();
    assert_eq!(f.state(), FragmentState::Published);
    assert_eq!(f.last_modified_at(), t(50));
    assert_eq!(f.created_at(), t(1));
    let e = FragmentPublishedEvent::from_fragment(f);
    assert_eq!(
        e,
        FragmentPublishedEvent { fragment_id: Id::from_u128(1), timestamp: t(50), actor: Actor::User(Id::from_u128(AUTHOR)) }
    );
}

#[test]
fn publish_refusals_name_their_reason() {
    let cmd = PublishFragmentCommand::new(Id::from_u128(1));
    let user = Id::from_u128(AUTHOR);
    assert_eq!(cmd.plan(user, None, t(5)).unwrap_err(), PublishFragmentCommandError::FragmentNotFound(Id::from_u128(1)));
    assert_eq!(
        cmd.plan(Id::from_u128(OTHER), Some(frag(1, AUTHOR, FragmentState::Draft, None, false)), t(5)).unwrap_err(),
        PublishFragmentCommandError::Forbidden("Only the fragment author can publish it")
    );
    let cases = [
        (FragmentState::Draft, Some(2), Some("forks need to be aprovved to be published")),
        (FragmentState::Approved, Some(2), None),
        (FragmentState::Published, None, Some("fragment is already published")),
        (FragmentState::Published, Some(2), Some("fragment is already published")),
        (FragmentState::WaitingReview, Some(2), Some("Fork can not be published")),
        (FragmentState::Submitted, Some(2), Some("Fork can not be published")),
        (FragmentState::Rejected, Some(2), Some("Fork can not be published")),
        (FragmentState::Approved, None, Some("Fragment can not be published")),
        (FragmentState::WaitingReview, None, Some("Fragment can not be published")),
    ];
    for (state, parent, reason) in cases {
        let r = cmd.plan(user, Some(frag(1, AUTHOR, state, parent, false)), t(5));
        match reason {
            None => assert_eq!(r.unwrap().state(), FragmentState::Published),
            Some(m) => assert_eq!(r.unwrap_err(), PublishFragmentCommandError::InvalidState(m)),
        }
    }
}

#[test]
fn submit_own_draft_fork() {
    let cmd = SubmitForkCommand::new(Id::from_u128(1));
    let user = Id::from_u128(AUTHOR);
    let f = cmd.plan(user, Some(frag(1, AUTHOR, FragmentState::Draft, Some(2), false)), t(9)).unwrap();
    assert_eq!(f.state(), FragmentState::Submitted);
    assert_eq!(f.last_modified_at(), t(9));
    assert_eq!(
        ForkSubmittedEvent::from_fragment(f),
        ForkSubmittedEvent { fragment_id: Id::from_u128(1), timestamp: t(9), actor: Actor::User(user) }
    );
    assert_eq!(cmd.command_type(), CommandType::SubmitFork);
}

#[test]
fn submit_refusals() {
    let cmd = SubmitForkCommand::new(Id::from_u128(1));
    let user = Id::from_u128(AUTHOR);
    assert_eq!(cmd.plan(user, None, t(9)).unwrap_err(), SubmitForkCommandError::ForkNotFound(Id::from_u128(1)));
    assert_eq!(
        cmd.plan(user, Some(frag(1, AUTHOR, FragmentState::Draft, None, false)), t(9)).unwrap_err(),
        SubmitForkCommandError::InvalidState("Fork can not be submitted")
    );
    // Authorship is checked first: another user's root fragment is forbidden.
    assert_eq!(
        cmd.plan(Id::from_u128(OTHER), Some(frag(1, AUTHOR, FragmentState::Draft, None, false)), t(9)).unwrap_err(),
        SubmitForkCommandError::Forbidden("Only the fork author can submit it")
    );
    assert_eq!(
        cmd.plan(Id::from_u128(OTHER), Some(frag(1, AUTHOR, FragmentState::Draft, Some(2), false)), t(9)).unwrap_err(),
        SubmitForkCommandError::Forbidden("Only the fork author can submit it")
    );
    assert_eq!(
        cmd.plan(user, Some(frag(1, AUTHOR, FragmentState::WaitingReview, Some(2), false)), t(9)).unwrap_err(),
        SubmitForkCommandError::InvalidState("Fork can not be submitted")
    );
    assert_eq!(
        cmd.plan(user, Some(frag(1, AUTHOR, FragmentState::Submitted, Some(2), false)), t(9)).unwrap_err(),
        SubmitForkCommandError::InvalidState("Fork can not be submitted")
    );
}

#[test]
fn review_by_parent_author_moves_fork_to_verdict() {
    let reviewer = Id::from_u128(OTHER);
    let parent = frag(2, OTHER, FragmentState::Published, None, false);
    for (action, state) in [(ReviewAction::Approve, FragmentState::Approved), (ReviewAction::Reject, FragmentState::Rejected)] {
        let cmd = ReviewForkCommand::new(Id::from_u128(77), Id::from_u128(1), action, Some(Comment::from_str("nice")));
        let fork = cmd.check(Some(frag(1, AUTHOR, FragmentState::Submitted, Some(2), false))).unwrap();
        let (review, updated) = cmd.plan(reviewer, fork, &parent, t(30)).unwrap();
        assert_eq!(updated.state(), state);
        assert_eq!(updated.last_modified_at(), t(30));
        assert_eq!(review.id, Id::from_u128(77));
        assert_eq!(review.reviewer_id, reviewer);
        assert_eq!(review.created_at, t(30));
        let e = FragmentForkReviewedEvent::from_review(review);
        assert_eq!(
            e,
            FragmentForkReviewedEvent {
                fragment_id: Id::from_u128(1),
                timestamp: t(30),
                comment: Some(Comment::from_str("nice")),
                action,
                actor: Actor::User(reviewer),
            }
        );
    }
}

#[test]
fn review_refusals() {
    let cmd = ReviewForkCommand::new(Id::from_u128(77), Id::from_u128(1), ReviewAction::Approve, None);
    assert_eq!(cmd.check(None).unwrap_err(), ReviewForkCommandError::FragmentNotFound(Id::from_u128(1)));
    assert_eq!(
        cmd.check(Some(frag(1, AUTHOR, FragmentState::WaitingReview, None, false))).unwrap_err(),
        ReviewForkCommandError::InvalidState("fragment should be in fork state to be reviewed")
    );
    assert_eq!(
        cmd.check(Some(frag(1, AUTHOR, FragmentState::Draft, Some(2), false))).unwrap_err(),
        ReviewForkCommandError::InvalidState("fragment should be in waiting review state to be reviewed")
    );
    assert!(cmd.check(Some(frag(1, AUTHOR, FragmentState::Submitted, Some(2), false))).is_ok());
    let fork = cmd.check(Some(frag(1, AUTHOR, FragmentState::WaitingReview, Some(2), false))).unwrap();
    let parent = frag(2, OTHER, FragmentState::Published, None, false);
    assert_eq!(
        cmd.plan(Id::from_u128(AUTHOR), fork, &parent, t(3)).unwrap_err(),
        ReviewForkCommandError::InvalidState("only the parent author can review a fork")
    );
}

#[test]
fn fork_a_friends_published_fragment() {
    let user = Id::from_u128(AUTHOR);
    let cmd = ForkFragmentCommand::new(Id::from_u128(5), Id::from_u128(2), Content::from_str("and then"), true);
    let parent = cmd.check_parent(user, Some(frag(2, OTHER, FragmentState::Published, Some(9), false))).unwrap();
    let fork = cmd.plan(user, &parent, true, t(40)).unwrap();
    assert_eq!(
        fork,
        Fragment {
            id: Id::from_u128(5),
            author_id: user,
            content: Content::from_str("and then"),
            state: FragmentState::Draft,
            parent_id: Some(Id::from_u128(2)),
            path: Path::empty().append(Id::from_u128(9)).append(Id::from_u128(2)),
            end: true,
            created_at: t(40),
            last_modified_at: t(40),
        }
    );
    let e = FragmentForkedEvent::from_fragment(fork);
    assert_eq!(
        e,
        FragmentForkedEvent {
            fragment_id: Id::from_u128(5),
            user_id: user,
            content: Content::from_str("and then"),
            end: true,
            parent_fragment_id: Id::from_u128(2),
            timestamp: t(40),
        }
    );
}

#[test]
fn fork_refusals() {
    let user = Id::from_u128(AUTHOR);
    let cmd = ForkFragmentCommand::new(Id::from_u128(5), Id::from_u128(2), Content::from_str("x"), false);
    assert_eq!(cmd.check_parent(user, None).unwrap_err(), ForkFragmentCommandError::ParentFragmentNotFound(Id::from_u128(5)));
    assert_eq!(
        cmd.check_parent(user, Some(frag(2, OTHER, FragmentState::Draft, None, false))).unwrap_err(),
        ForkFragmentCommandError::InvalidState("Parent fragment is not published")
    );
    assert_eq!(
        cmd.check_parent(user, Some(frag(2, AUTHOR, FragmentState::Published, None, false))).unwrap_err(),
        ForkFragmentCommandError::Forbidden("Cannot fork your own fragment")
    );
    assert_eq!(
        cmd.check_parent(user, Some(frag(2, OTHER, FragmentState::Published, None, true))).unwrap_err(),
        ForkFragmentCommandError::Forbidden("Cannot fork an end fragment")
    );
    let parent = frag(2, OTHER, FragmentState::Published, None, false);
    assert_eq!(
        cmd.plan(user, &parent, false, t(1)).unwrap_err(),
        ForkFragmentCommandError::Forbidden("You must be fragment author friend")
    );
}

#[test]
fn a_fork_goes_from_draft_to_published_only_through_an_approving_review() {
    let author = Id::from_u128(AUTHOR);
    let owner = Id::from_u128(OTHER);
    let parent = frag(2, OTHER, FragmentState::Published, None, false);
    let fork_cmd = ForkFragmentCommand::new(Id::from_u128(5), Id::from_u128(2), Content::from_str("x"), false);
    let fork = fork_cmd.plan(author, &parent, true, t(1)).unwrap();
    let publish = PublishFragmentCommand::new(Id::from_u128(5));
    let refused = publish.plan(author, Some(fork_cmd.plan(author, &parent, true, t(1)).unwrap()), t(2));
    assert!(refused.is_err());
    let submitted = SubmitForkCommand::new(Id::from_u128(5)).plan(author, Some(fork), t(3)).unwrap();
    let review = ReviewForkCommand::new(Id::new(), Id::from_u128(5), ReviewAction::Approve, None);
    let checked = review.check(Some(submitted)).unwrap();
    let (_, approved) = review.plan(owner, checked, &parent, t(4)).unwrap();
    let published = publish.plan(author, Some(approved), t(5)).unwrap();
    assert_eq!(published.state(), FragmentState::Published);
    assert_eq!(published.path().ids, vec![Id::from_u128(2)]);
}
