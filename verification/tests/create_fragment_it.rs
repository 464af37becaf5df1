use tales_tree::command_bus::command::create_fragment::CreateFragmentCommand;
use tales_tree::command_bus::command::Command;
use tales_tree::commons::actor::Actor;
use tales_tree::commons::clock::DateTime;
use tales_tree::commons::commands::CommandType;
use tales_tree::commons::fragment::Content;
use tales_tree::commons::id::Id;
use tales_tree::events::{Event, FragmentCreatedEvent};
use tales_tree::commons::events::EventType;
use tales_tree::storage::model::fragment::{Fragment, FragmentState, Path};
use tales_tree::storage::model::user::User;

#[test]
fn test_handle_success() {
    let created_at = DateTime::now();
    let user = User { id: Id::new() };

    let command = CreateFragmentCommand::new(Id::new(), "Fragment".to_owned(), false);

    let frag = command.plan(user.id(), created_at);
    assert_eq!(
        frag,
        Fragment {
            id: command.fragment_id(),
            author_id: user.id(),
            content: Content::from_str("Fragment"),
            state: FragmentState::Draft,
            parent_id: None,
            path: Path::empty(),
            end: false,
            created_at,
            last_modified_at: created_at,
        }
    );

    let e = FragmentCreatedEvent::from_fragment(frag);
    assert_eq!(
        e,
        FragmentCreatedEvent {
            fragment_id: command.fragment_id(),
            content: Content::from(command.content().clone()),
            user_id: user.id(),
            timestamp: created_at,
            end: false,
        }
    );
    assert_eq!(e.event_type(), EventType::FragmentCreated);
    assert_eq!(e.actor(), Actor::User(user.id()));
}

#[test]
fn create_fragment_accepts_users_only() {
    let command = CreateFragmentCommand::new(Id::new(), "x".to_owned(), true);
    assert!(command.supports(&Actor::User(Id::new())));
    assert!(!command.supports(&Actor::System));
    assert!(command.supports(&User { id: Id::new() }));
    assert_eq!(command.command_type(), CommandType::CreateFragment);
}
