use tales_tree::command_bus::bus::{
    accepts, outcome, plan_dispatch, start, step, ExecAction, ExecInput, ExecStage,
};
use tales_tree::command_bus::command::create_fragment::CreateFragmentCommand;
use tales_tree::command_bus::command::update_fragment::UpdateFragmentCommandError;
use tales_tree::command_bus::command::Command;
use tales_tree::command_bus::error::{CommandBusError, TxError};
use tales_tree::commons::actor::{Actor, ActorType};
use tales_tree::commons::clock::DateTime;
use tales_tree::commons::commands::CommandType;
use tales_tree::commons::events::EventType;
use tales_tree::commons::id::{Id, IdGenerator};
use tales_tree::events::FragmentCreatedEvent;
use tales_tree::storage::model::event::{DbEvent, EventData};
use tales_tree::storage::model::user::User;
use tales_tree::storage::StorageError;

struct FixedIds(Id);

impl IdGenerator for FixedIds {
    fn new_id(&self) -> Id {
        self.0
    }
}

fn fixed_id(id: Id) -> FixedIds {
    FixedIds(id)
}

/// Runs a command's execution against an in-memory log; `fail_handler`
/// makes the handler fail.
fn run(
    command: &CreateFragmentCommand,
    actor: &User,
    now: DateTime,
    ids: &dyn IdGenerator,
    log: &mut Vec<DbEvent>,
) -> (Result<(), CommandBusError>, Vec<&'static str>) {
    let mut requests = Vec::new();
    let (mut stage, mut action) = start::<_, _, FragmentCreatedEvent>(command, actor);
    let mut pending: Vec<DbEvent> = Vec::new();
    loop {
        let input = match action {
            ExecAction::BeginTx => {
                requests.push("begin");
                ExecInput::TxBegun(Ok(()))
            }
            ExecAction::Handle => {
                requests.push("handle");
                let frag = command.plan(actor.id(), now);
                ExecInput::Handled(Ok(Some(FragmentCreatedEvent::from_fragment(frag))))
            }
            ExecAction::SaveEvent(ev) => {
                requests.push("save");
                let data = EventData { json: format!("{:?}", ev) };
                pending.push(DbEvent::from_event(ids.new_id(), &ev, data));
                ExecInput::EventSaved(Ok(()))
            }
            ExecAction::Commit => {
                requests.push("commit");
                log.append(&mut pending);
                ExecInput::Committed(Ok(()))
            }
            ExecAction::Rollback => {
                requests.push("rollback");
                pending.clear();
                ExecInput::RolledBack(Ok(()))
            }
            ExecAction::Finish => break,
        };
        assert!(accepts(&stage, &input));
        let (s, a) = step(stage, input);
        stage = s;
        action = a;
    }
    (outcome(stage).unwrap(), requests)
}

#[test]
fn test_command_bus() {
    let user = User { id: Id::new() };
    let event_id = Id::new();
    let mut log = Vec::new();
    let command = CreateFragmentCommand::new(Id::new(), "First tale".to_string(), false);
    let now = DateTime::now();
    let (res, requests) = run(&command, &user, now, &fixed_id(event_id), &mut log);
    assert!(res.is_ok());
    assert_eq!(requests, vec!["begin", "handle", "save", "commit"]);

    if let Some(e) = log.first() {
        assert_eq!(e.event_type, EventType::FragmentCreated);
        assert_eq!(e.id(), event_id);
        assert_eq!(e.timestamp, now);
        assert_eq!(e.actor_id, Some(user.id()));
        assert_eq!(e.actor_type, ActorType::User);
        assert!(e.event_data.json.contains("First tale"));
    } else {
        panic!("No events found")
    }
}

#[test]
fn system_actor_is_refused_before_any_transaction() {
    let command = CreateFragmentCommand::new(Id::new(), "x".to_string(), false);
    let (stage, action) = start::<_, _, FragmentCreatedEvent>(&command, &Actor::System);
    assert!(matches!(action, ExecAction::Finish));
    match outcome(stage) {
        Some(Err(CommandBusError::ActorNotSupported(Actor::System))) => {}
        other => panic!("unexpected {:?}", other),
    }
}

#[test]
fn handler_error_is_rolled_back_and_reported() {
    let err = CommandBusError::from(UpdateFragmentCommandError::FragmentNotFound(Id::from_u128(3)));
    let (stage, action) = step::<FragmentCreatedEvent>(ExecStage::Handling, ExecInput::Handled(Err(err)));
    assert!(matches!(action, ExecAction::Rollback));
    let (stage, action) = step::<FragmentCreatedEvent>(stage, ExecInput::RolledBack(Ok(())));
    assert!(matches!(action, ExecAction::Finish));
    match outcome(stage) {
        Some(Err(CommandBusError::UpdateFragmentCommand(UpdateFragmentCommandError::FragmentNotFound(id)))) => {
            assert_eq!(id, Id::from_u128(3))
        }
        other => panic!("unexpected {:?}", other),
    }
}

#[test]
fn failed_rollback_reports_the_transaction_error() {
    let err = CommandBusError::Unexpected("boom".to_string());
    let (stage, _) = step::<FragmentCreatedEvent>(ExecStage::Handling, ExecInput::Handled(Err(err)));
    let (stage, _) = step::<FragmentCreatedEvent>(stage, ExecInput::RolledBack(Err(TxError { message: "gone".to_string() })));
    match outcome(stage) {
        Some(Err(CommandBusError::Tx(e))) => assert_eq!(e.message, "gone"),
        other => panic!("unexpected {:?}", other),
    }
}

#[test]
fn handler_without_event_commits_directly() {
    let (stage, action) = step::<FragmentCreatedEvent>(ExecStage::Handling, ExecInput::Handled(Ok(None)));
    assert!(matches!(action, ExecAction::Commit));
    assert!(matches!(stage, ExecStage::Committing));
    let (stage, _) = step::<FragmentCreatedEvent>(stage, ExecInput::Committed(Ok(())));
    assert!(matches!(outcome(stage), Some(Ok(()))));
}

#[test]
fn failures_of_the_store_end_the_execution() {
    let (stage, _) = step::<FragmentCreatedEvent>(ExecStage::BeginningTx, ExecInput::TxBegun(Err(TxError { message: "no tx".to_string() })));
    assert!(matches!(outcome(stage), Some(Err(CommandBusError::Tx(_)))));
    let (stage, _) = step::<FragmentCreatedEvent>(ExecStage::SavingEvent, ExecInput::EventSaved(Err(StorageError { message: "disk".to_string() })));
    assert!(matches!(outcome(stage), Some(Err(CommandBusError::Storage(_)))));
    let (stage, _) = step::<FragmentCreatedEvent>(ExecStage::Committing, ExecInput::Committed(Err(TxError { message: "c".to_string() })));
    assert!(matches!(outcome(stage), Some(Err(CommandBusError::Tx(_)))));
    assert!(outcome(ExecStage::Handling).is_none());
    assert!(!accepts::<FragmentCreatedEvent>(&ExecStage::Handling, &ExecInput::Committed(Ok(()))));
}

#[test]
fn dispatch_schedules_a_task() {
    let user = User { id: Id::from_u128(8) };
    let command = CreateFragmentCommand::new(Id::new(), "x".to_string(), false);
    let now = DateTime::from_timestamp(100, 0);
    let later = DateTime::from_timestamp(500, 7);
    let data = EventData { json: "{}".to_string() };
    let task = plan_dispatch(&command, &user, data.clone(), None, now, Id::from_u128(1)).unwrap();
    assert_eq!(task.id, Id::from_u128(1));
    assert_eq!(task.command_type, CommandType::CreateFragment);
    assert_eq!(task.command_data, data);
    assert_eq!(task.actor_type, ActorType::User);
    assert_eq!(task.actor_id, Some(Id::from_u128(8)));
    assert_eq!(task.scheduled_at, now);
    let task = plan_dispatch(&command, &user, data.clone(), Some(later), now, Id::from_u128(1)).unwrap();
    assert_eq!(task.scheduled_at, later);
    match plan_dispatch(&command, &Actor::System, data, None, now, Id::from_u128(1)) {
        Err(CommandBusError::ActorNotSupported(Actor::System)) => {}
        other => panic!("unexpected {:?}", other),
    }
    assert_eq!(command.command_type(), CommandType::CreateFragment);
}

#[test]
fn db_event_with_fresh_id_carries_the_event() {
    let command = CreateFragmentCommand::new(Id::new(), "x".to_string(), true);
    let user = Id::new();
    let ev = FragmentCreatedEvent::from_fragment(command.plan(user, DateTime::from_timestamp(3, 4)));
    let rec = DbEvent::new(&ev, EventData { json: "j".to_string() });
    assert_eq!(rec.id().as_u128() & 0x0000_0000_0000_F000_C000_0000_0000_0000, 0x0000_0000_0000_4000_8000_0000_0000_0000);
    assert_eq!(rec.timestamp, DateTime::from_timestamp(3, 4));
    assert_eq!(rec.actor_id, Some(user));
}
