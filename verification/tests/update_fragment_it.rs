use tales_tree::command_bus::command::update_fragment::{
    UpdateFragmentCommand, UpdateFragmentCommandError,
};
use tales_tree::command_bus::error::CommandBusError;
use tales_tree::commons::actor::Actor;
use tales_tree::commons::clock::DateTime;
use tales_tree::commons::fragment::Content;
use tales_tree::commons::id::Id;
use tales_tree::events::FragmentUpdatedEvent;
use tales_tree::storage::model::fragment::{Fragment, FragmentState, Path};
use tales_tree::storage::model::user::User;

fn create_user() -> User {
    User { id: Id::new() }
}

fn fragment(user: &User, content: &str, state: FragmentState, end: bool) -> Fragment {
    let now = DateTime::now();
    Fragment {
        id: Id::new(),
        author_id: user.id(),
        content: Content::from_str(content),
        state,
        parent_id: None,
        path: Path::empty(),
        end,
        created_at: now,
        last_modified_at: now,
    }
}

fn create_draft(user: &User, content: &str, end: bool) -> Fragment {
    fragment(user, content, FragmentState::Draft, end)
}

fn create_published(user: &User, content: &str, end: bool) -> Fragment {
    fragment(user, content, FragmentState::Published, end)
}

fn as_bus_error(e: UpdateFragmentCommandError) -> CommandBusError {
    CommandBusError::from(e)
}

#[test]
fn test_success_draft_update() {
    const OLD_CONTENT: &str = "content";
    const NEW_CONTENT: &str = "new content";

    let user = create_user();
    let draft = create_draft(&user, OLD_CONTENT, false);
    let draft_id = draft.id();
    let draft_state = draft.state();
    let draft_parent = draft.parent_id();
    let draft_created = draft.created_at();

    let command = UpdateFragmentCommand::new(draft_id, Content::from(NEW_CONTENT.to_string()), true);

    let now = DateTime::now();
    let result = command.plan(user.id(), Some(draft), now).unwrap();
    let expected_fragment = Fragment {
        id: draft_id,
        author_id: user.id(),
        content: Content::from_str(NEW_CONTENT),
        state: draft_state,
        parent_id: draft_parent,
        path: Path::empty(),
        end: true,
        created_at: draft_created,
        last_modified_at: now,
    };
    assert_eq!(result, expected_fragment);

    let event = FragmentUpdatedEvent::from_fragment(result);
    assert_eq!(
        event,
        FragmentUpdatedEvent {
            fragment_id: draft_id,
            content: Content::from_str(NEW_CONTENT),
            timestamp: now,
            end: true,
            actor: Actor::User(user.id()),
        }
    );
}

#[test]
fn test_actor_not_author() {
    let author = create_user();
    let draft = create_draft(&author, "content", false);
    let other_user = create_user();

    let command = UpdateFragmentCommand::new(draft.id(), Content::from_str("new content"), true);

    match command.plan(other_user.id(), Some(draft), DateTime::now()).map_err(as_bus_error) {
        Ok(_) => panic!("Expected Err(CommandBusError) but got Ok(_)"),
        Err(CommandBusError::UpdateFragmentCommand(e)) => assert_eq!(
            e,
            UpdateFragmentCommandError::UserWithoutPermission(other_user.id())
        ),
        Err(_) => panic!("Not expected error"),
    }
}

#[test]
fn test_non_editable_fragment() {
    let author = create_user();
    let published = create_published(&author, "content", false);
    let published_id = published.id();

    let command = UpdateFragmentCommand::new(published_id, Content::from_str("new content"), true);

    match command.plan(author.id(), Some(published), DateTime::now()).map_err(as_bus_error) {
        Ok(_) => panic!("Expected Err(CommandBusError) but got Ok(_)"),
        Err(CommandBusError::UpdateFragmentCommand(e)) => {
            assert_eq!(e, UpdateFragmentCommandError::NonEditableFragment(published_id))
        }
        Err(_) => panic!("Not expected error"),
    }
}

#[test]
fn test_fragment_not_found() {
    let user = create_user();

    let command = UpdateFragmentCommand::new(Id::new(), Content::from_str("new content"), true);

    match command.plan(user.id(), None, DateTime::now()).map_err(as_bus_error) {
        Ok(_) => panic!("Expected Err(CommandBusError) but got Ok(_)"),
        Err(CommandBusError::UpdateFragmentCommand(e)) => assert_eq!(
            e,
            UpdateFragmentCommandError::FragmentNotFound(command.fragment_id())
        ),
        Err(_) => panic!("Not expected error"),
    }
}

#[test]
fn update_refuses_the_author_of_a_non_draft_before_checking_authorship() {
    let author = create_user();
    let other = create_user();
    let published = create_published(&author, "content", false);
    let id = published.id();
    let command = UpdateFragmentCommand::new(id, Content::from_str("x"), false);
    assert_eq!(
        command.plan(other.id(), Some(published), DateTime::now()).unwrap_err(),
        UpdateFragmentCommandError::NonEditableFragment(id)
    );
}
