//! The command bus: scheduling a command as a task, and executing a command
//! inside one store transaction.
//!
//! Execution alternates work on the store with decisions, so it is written
//! as a state machine: `start` and `step` decide, from the stage reached and
//! the answer to the last request, the next stage and the next request
//! (begin the transaction, run the handler, save the event, commit or roll
//! back). The application performs each request and answers it.

use vstd::prelude::*;
use crate::command_bus::command::Command;
use crate::command_bus::error::{CommandBusError, TxError};
use crate::commons::actor::{Actor, ActorTrait};
use crate::commons::clock::DateTime;
use crate::commons::id::Id;
use crate::storage::StorageError;
use crate::storage::model::event::EventData;
use crate::storage::model::task::Task;

verus! {

/// The task that schedules `command` for `actor`, or the refusal of an actor
/// that the command does not accept. The task has id `task_id`, carries the
/// command's type and its serialized form `command_data`, the actor's kind
/// and id, and is due at `schedule_to`, or at `now` when no time is given.
pub fn plan_dispatch<C: Command, A: ActorTrait>(
    command: &C,
    actor: &A,
    command_data: EventData,
    schedule_to: Option<DateTime>,
    now: DateTime,
    task_id: Id,
) -> (r: Result<Task, CommandBusError>)
    ensures
        !command.spec_supports(actor.spec_actor()) ==> r == Err::<Task, _>(
            CommandBusError::ActorNotSupported(actor.spec_actor()),
        ),
        command.spec_supports(actor.spec_actor()) ==> r == Ok::<_, CommandBusError>(
            Task {
                id: task_id,
                command_type: command.spec_command_type(),
                command_data,
                actor_type: actor.spec_actor().spec_actor_type(),
                actor_id: actor.spec_actor().spec_id(),
                scheduled_at: match schedule_to {
                    Some(t) => t,
                    None => now,
                },
            },
        ),
{
    if !command.supports(actor) {
        return Err(CommandBusError::ActorNotSupported(actor.actor()));
    }
    let scheduled_at = match schedule_to {
        Some(t) => t,
        None => now,
    };
    Ok(
        Task {
            id: task_id,
            command_type: command.command_type(),
            command_data,
            actor_type: actor.actor_type(),
            actor_id: actor.id(),
            scheduled_at,
        },
    )
}

/// How far the execution of a command has come.
#[derive(Debug)]
pub enum ExecStage {
    /// Waiting for the transaction to begin.
    BeginningTx,
    /// Waiting for the handler's result.
    Handling,
    /// Waiting for the handler's event to be saved.
    SavingEvent,
    /// Waiting for the commit.
    Committing,
    /// The handler failed with the held error; waiting for the rollback.
    RollingBack(CommandBusError),
    /// Finished, with the execution's result.
    Done(Result<(), CommandBusError>),
}

/// What the execution asks of the application next.
#[derive(Debug)]
pub enum ExecAction<E> {
    BeginTx,
    /// Run the command's handler inside the transaction.
    Handle,
    /// Save this event to the log inside the transaction.
    SaveEvent(E),
    Commit,
    Rollback,
    /// Nothing more: the execution is done.
    Finish,
}

/// The application's answer to the last request.
#[derive(Debug)]
pub enum ExecInput<E> {
    TxBegun(Result<(), TxError>),
    Handled(Result<Option<E>, CommandBusError>),
    EventSaved(Result<(), StorageError>),
    Committed(Result<(), TxError>),
    RolledBack(Result<(), TxError>),
}

/// Whether `input` answers the request pending at `stage`.
pub open spec fn answers<E>(stage: ExecStage, input: ExecInput<E>) -> bool {
    match (stage, input) {
        (ExecStage::BeginningTx, ExecInput::TxBegun(_)) => true,
        (ExecStage::Handling, ExecInput::Handled(_)) => true,
        (ExecStage::SavingEvent, ExecInput::EventSaved(_)) => true,
        (ExecStage::Committing, ExecInput::Committed(_)) => true,
        (ExecStage::RollingBack(_), ExecInput::RolledBack(_)) => true,
        _ => false,
    }
}

/// The first decision: an actor that the command does not accept is refused
/// at once, before any transaction; otherwise the transaction is begun.
pub open spec fn spec_start<E>(supported: bool, actor: Actor) -> (ExecStage, ExecAction<E>) {
    if supported {
        (ExecStage::BeginningTx, ExecAction::BeginTx)
    } else {
        (ExecStage::Done(Err(CommandBusError::ActorNotSupported(actor))), ExecAction::Finish)
    }
}

/// One decision of the execution, from the stage reached and the answer to
/// its pending request.
/// - A transaction that fails to begin ends the execution with that failure.
/// - A handler's error is answered by a rollback; a handler's event is saved
///   before the commit; a handler that logs nothing goes straight to the commit.
/// - A failed save ends the execution with the store's error, uncommitted.
/// - The commit's failure, or else success, is the execution's result.
/// - After a rollback the result is the handler's error, or the rollback's
///   failure when the rollback fails.
pub open spec fn spec_step<E>(stage: ExecStage, input: ExecInput<E>) -> (ExecStage, ExecAction<E>) {
    match (stage, input) {
        (ExecStage::BeginningTx, ExecInput::TxBegun(Ok(()))) => (ExecStage::Handling, ExecAction::Handle),
        (ExecStage::BeginningTx, ExecInput::TxBegun(Err(e))) => (
            ExecStage::Done(Err(CommandBusError::Tx(e))),
            ExecAction::Finish,
        ),
        (ExecStage::Handling, ExecInput::Handled(Ok(Some(ev)))) => (
            ExecStage::SavingEvent,
            ExecAction::SaveEvent(ev),
        ),
        (ExecStage::Handling, ExecInput::Handled(Ok(None))) => (ExecStage::Committing, ExecAction::Commit),
        (ExecStage::Handling, ExecInput::Handled(Err(e))) => (
            ExecStage::RollingBack(e),
            ExecAction::Rollback,
        ),
        (ExecStage::SavingEvent, ExecInput::EventSaved(Ok(()))) => (ExecStage::Committing, ExecAction::Commit),
        (ExecStage::SavingEvent, ExecInput::EventSaved(Err(e))) => (
            ExecStage::Done(Err(CommandBusError::Storage(e))),
            ExecAction::Finish,
        ),
        (ExecStage::Committing, ExecInput::Committed(Ok(()))) => (ExecStage::Done(Ok(())), ExecAction::Finish),
        (ExecStage::Committing, ExecInput::Committed(Err(e))) => (
            ExecStage::Done(Err(CommandBusError::Tx(e))),
            ExecAction::Finish,
        ),
        (ExecStage::RollingBack(err), ExecInput::RolledBack(Ok(()))) => (ExecStage::Done(Err(err)), ExecAction::Finish),
        (ExecStage::RollingBack(_), ExecInput::RolledBack(Err(e))) => (
            ExecStage::Done(Err(CommandBusError::Tx(e))),
            ExecAction::Finish,
        ),
        (stage, _) => (stage, ExecAction::Finish),
    }
}

/// Starts the execution of `command` for `actor`.
pub fn start<C: Command, A: ActorTrait, E>(command: &C, actor: &A) -> (r: (ExecStage, ExecAction<E>))
    ensures
        r == spec_start::<E>(command.spec_supports(actor.spec_actor()), actor.spec_actor()),
{
    if command.supports(actor) {
        (ExecStage::BeginningTx, ExecAction::BeginTx)
    } else {
        (ExecStage::Done(Err(CommandBusError::ActorNotSupported(actor.actor()))), ExecAction::Finish)
    }
}

/// Whether `input` answers the request pending at `stage`; `step` takes only
/// such answers.
pub fn accepts<E>(stage: &ExecStage, input: &ExecInput<E>) -> (b: bool)
    ensures
        b == answers(*stage, *input),
{
    match (stage, input) {
        (ExecStage::BeginningTx, ExecInput::TxBegun(_)) => true,
        (ExecStage::Handling, ExecInput::Handled(_)) => true,
        (ExecStage::SavingEvent, ExecInput::EventSaved(_)) => true,
        (ExecStage::Committing, ExecInput::Committed(_)) => true,
        (ExecStage::RollingBack(_), ExecInput::RolledBack(_)) => true,
        _ => false,
    }
}

/// Takes the answer to the pending request and decides the next stage and request.
pub fn step<E>(stage: ExecStage, input: ExecInput<E>) -> (r: (ExecStage, ExecAction<E>))
    requires
        answers(stage, input),
    ensures
        r == spec_step(stage, input),
{
    match (stage, input) {
        (ExecStage::BeginningTx, ExecInput::TxBegun(Ok(()))) => (ExecStage::Handling, ExecAction::Handle),
        (ExecStage::BeginningTx, ExecInput::TxBegun(Err(e))) => (
            ExecStage::Done(Err(CommandBusError::Tx(e))),
            ExecAction::Finish,
        ),
        (ExecStage::Handling, ExecInput::Handled(Ok(Some(ev)))) => (
            ExecStage::SavingEvent,
            ExecAction::SaveEvent(ev),
        ),
        (ExecStage::Handling, ExecInput::Handled(Ok(None))) => (ExecStage::Committing, ExecAction::Commit),
        (ExecStage::Handling, ExecInput::Handled(Err(e))) => (
            ExecStage::RollingBack(e),
            ExecAction::Rollback,
        ),
        (ExecStage::SavingEvent, ExecInput::EventSaved(Ok(()))) => (ExecStage::Committing, ExecAction::Commit),
        (ExecStage::SavingEvent, ExecInput::EventSaved(Err(e))) => (
            ExecStage::Done(Err(CommandBusError::Storage(e))),
            ExecAction::Finish,
        ),
        (ExecStage::Committing, ExecInput::Committed(Ok(()))) => (ExecStage::Done(Ok(())), ExecAction::Finish),
        (ExecStage::Committing, ExecInput::Committed(Err(e))) => (
            ExecStage::Done(Err(CommandBusError::Tx(e))),
            ExecAction::Finish,
        ),
        (ExecStage::RollingBack(err), ExecInput::RolledBack(Ok(()))) => (ExecStage::Done(Err(err)), ExecAction::Finish),
        (ExecStage::RollingBack(_), ExecInput::RolledBack(Err(e))) => (
            ExecStage::Done(Err(CommandBusError::Tx(e))),
            ExecAction::Finish,
        ),
        (stage, _) => (stage, ExecAction::Finish),
    }
}

/// The execution's result once it is done, `None` before.
pub fn outcome(stage: ExecStage) -> (r: Option<Result<(), CommandBusError>>)
    ensures
        r == (match stage {
            ExecStage::Done(res) => Some(res),
            _ => None,
        }),
{
    match stage {
        ExecStage::Done(res) => Some(res),
        _ => None,
    }
}

} // verus!

verus! {

/// The stage that the execution reaches from `stage` on the answers
/// `inputs`, taken in order while each answers the pending request.
pub open spec fn spec_run<E>(stage: ExecStage, inputs: Seq<ExecInput<E>>) -> ExecStage
    decreases inputs.len(),
{
    if inputs.len() == 0 || !answers(stage, inputs[0]) {
        stage
    } else {
        spec_run(spec_step(stage, inputs[0]).0, inputs.drop_first())
    }
}

/// Whether the execution, from `stage` on the answers `inputs`, ever requests a commit.
pub open spec fn spec_run_commits<E>(stage: ExecStage, inputs: Seq<ExecInput<E>>) -> bool
    decreases inputs.len(),
{
    if inputs.len() == 0 || !answers(stage, inputs[0]) {
        false
    } else {
        spec_step(stage, inputs[0]).1 is Commit || spec_run_commits(
            spec_step(stage, inputs[0]).0,
            inputs.drop_first(),
        )
    }
}

/// An actor that the command does not accept is refused before any
/// transaction is begun, and the refusal names the actor.
pub proof fn lemma_unsupported_actor_refused<E>(actor: Actor)
    ensures
        spec_start::<E>(false, actor) == (
            ExecStage::Done(Err(CommandBusError::ActorNotSupported(actor))),
            ExecAction::<E>::Finish,
        ),
{
}

/// A commit is requested only right after the handler succeeded without an
/// event, or right after the handler's event was saved.
pub proof fn lemma_commit_only_after_success<E>(stage: ExecStage, input: ExecInput<E>)
    requires
        answers(stage, input),
        spec_step(stage, input).1 is Commit,
    ensures
        (stage is Handling && input matches ExecInput::Handled(Ok(None))) || (stage is SavingEvent
            && input matches ExecInput::EventSaved(Ok(()))),
{
}

/// A handler's error is answered by a rollback, and the error is kept to be reported.
pub proof fn lemma_handler_error_rolls_back<E>(err: CommandBusError)
    ensures
        spec_step(ExecStage::Handling, ExecInput::<E>::Handled(Err(err))) == (
            ExecStage::RollingBack(err),
            ExecAction::<E>::Rollback,
        ),
{
}

/// The execution succeeds only when a commit succeeds.
pub proof fn lemma_success_only_by_commit<E>(stage: ExecStage, input: ExecInput<E>)
    requires
        answers(stage, input),
        spec_step(stage, input).0 == ExecStage::Done(Ok(())),
    ensures
        stage is Committing,
        input matches ExecInput::Committed(Ok(())),
{
}

/// A finished execution takes no further answer.
pub proof fn lemma_done_is_final<E>(res: Result<(), CommandBusError>, inputs: Seq<ExecInput<E>>)
    ensures
        spec_run(ExecStage::Done(res), inputs) == ExecStage::Done(res),
        !spec_run_commits(ExecStage::Done(res), inputs),
{
    if inputs.len() > 0 {
        assert(!answers(ExecStage::Done(res), inputs[0]));
    }
}

/// Once the handler failed, the transaction is never committed, and the
/// execution ends with the handler's error, or with the rollback's failure.
pub proof fn lemma_failed_handler_never_commits<E>(err: CommandBusError, inputs: Seq<ExecInput<E>>)
    ensures
        !spec_run_commits(ExecStage::RollingBack(err), inputs),
        spec_run(ExecStage::RollingBack(err), inputs) == ExecStage::RollingBack(err)
            || spec_run(ExecStage::RollingBack(err), inputs) == ExecStage::Done(Err(err))
            || spec_run(ExecStage::RollingBack(err), inputs) matches ExecStage::Done(
            Err(CommandBusError::Tx(_)),
        ),
{
    if inputs.len() > 0 && answers(ExecStage::RollingBack(err), inputs[0]) {
        let next = spec_step(ExecStage::RollingBack(err), inputs[0]).0;
        match next {
            ExecStage::Done(res) => {
                lemma_done_is_final(res, inputs.drop_first());
            },
            _ => {},
        }
    }
}

/// An execution that has begun its transaction ends in success only if the
/// handler's next answer was a success: a failing handler never yields `Ok`.
pub proof fn lemma_success_needs_handler_success<E>(inputs: Seq<ExecInput<E>>)
    requires
        spec_run(ExecStage::Handling, inputs) == ExecStage::Done(Ok(())),
    ensures
        inputs.len() > 0,
        inputs[0] matches ExecInput::Handled(Ok(_)),
{
    if inputs.len() > 0 && answers(ExecStage::Handling, inputs[0]) {
        match inputs[0] {
            ExecInput::Handled(Err(e)) => {
                lemma_failed_handler_never_commits(e, inputs.drop_first());
            },
            _ => {},
        }
    }
}

} // verus!

verus! {

/// An execution that starts a transaction ends in success only if the
/// transaction began and the handler then succeeded.
pub proof fn lemma_success_needs_tx_and_handler<E>(inputs: Seq<ExecInput<E>>)
    requires
        spec_run(ExecStage::BeginningTx, inputs) == ExecStage::Done(Ok(())),
    ensures
        inputs.len() > 1,
        inputs[0] matches ExecInput::TxBegun(Ok(())),
        inputs[1] matches ExecInput::Handled(Ok(_)),
{
    if inputs.len() > 0 && answers(ExecStage::BeginningTx, inputs[0]) {
        match inputs[0] {
            ExecInput::TxBegun(Ok(())) => {
                lemma_success_needs_handler_success(inputs.drop_first());
                assert(inputs.drop_first()[0] == inputs[1]);
            },
            ExecInput::TxBegun(Err(e)) => {
                lemma_done_is_final(Err(CommandBusError::Tx(e)), inputs.drop_first());
            },
            _ => {},
        }
    }
}

} // verus!
