use vstd::prelude::*;
use vstd::std_specs::convert::FromSpecImpl;
use crate::commons::actor::Actor;
use crate::storage::StorageError;
use crate::command_bus::command::dislike_fragment::DislikeFragmentCommandError;
use crate::command_bus::command::like_fragment::LikeFragmentCommandError;
use crate::command_bus::command::create_fragment::CreateFragmentCommandError;
use crate::command_bus::command::fork_fragment::ForkFragmentCommandError;
use crate::command_bus::command::publish_fragment::PublishFragmentCommandError;
use crate::command_bus::command::update_fragment::UpdateFragmentCommandError;
use crate::command_bus::command::review_fork::ReviewForkCommandError;
use crate::command_bus::command::submit_fork::SubmitForkCommandError;

verus! {

/// A failure of the store's transaction (begin, commit or rollback), with its message.
#[derive(Debug)]
pub struct TxError {
    pub message: String,
}

/// Why a command was not executed, or not scheduled.
#[derive(Debug)]
pub enum CommandBusError {
    DislikeFragmentCommand(DislikeFragmentCommandError),
    LikeFragmentCommand(LikeFragmentCommandError),
    CreateFragmentCommand(CreateFragmentCommandError),
    ForkFragmentCommand(ForkFragmentCommandError),
    PublishFragmentCommand(PublishFragmentCommandError),
    UpdateFragmentCommand(UpdateFragmentCommandError),
    ReviewForkCommand(ReviewForkCommandError),
    SubmitForkCommand(SubmitForkCommandError),
    Storage(StorageError),
    /// The command does not accept this actor.
    ActorNotSupported(Actor),
    Tx(TxError),
    /// The store answered a handler's call with a reply that does not
    /// answer it (of another kind, or about another record).
    UnexpectedReply,
    /// Any other failure, with its message.
    Unexpected(String),
}

impl From<DislikeFragmentCommandError> for CommandBusError {
    fn from(value: DislikeFragmentCommandError) -> (e: CommandBusError) {
        CommandBusError::DislikeFragmentCommand(value)
    }
}

impl FromSpecImpl<DislikeFragmentCommandError> for CommandBusError {
    open spec fn obeys_from_spec() -> bool {
        true
    }

    open spec fn from_spec(value: DislikeFragmentCommandError) -> CommandBusError {
        CommandBusError::DislikeFragmentCommand(value)
    }
}

impl From<LikeFragmentCommandError> for CommandBusError {
    fn from(value: LikeFragmentCommandError) -> (e: CommandBusError) {
        CommandBusError::LikeFragmentCommand(value)
    }
}

impl FromSpecImpl<LikeFragmentCommandError> for CommandBusError {
    open spec fn obeys_from_spec() -> bool {
        true
    }

    open spec fn from_spec(value: LikeFragmentCommandError) -> CommandBusError {
        CommandBusError::LikeFragmentCommand(value)
    }
}

impl From<CreateFragmentCommandError> for CommandBusError {
    fn from(value: CreateFragmentCommandError) -> (e: CommandBusError) {
        CommandBusError::CreateFragmentCommand(value)
    }
}

impl FromSpecImpl<CreateFragmentCommandError> for CommandBusError {
    open spec fn obeys_from_spec() -> bool {
        true
    }

    open spec fn from_spec(value: CreateFragmentCommandError) -> CommandBusError {
        CommandBusError::CreateFragmentCommand(value)
    }
}

impl From<ForkFragmentCommandError> for CommandBusError {
    fn from(value: ForkFragmentCommandError) -> (e: CommandBusError) {
        CommandBusError::ForkFragmentCommand(value)
    }
}

impl FromSpecImpl<ForkFragmentCommandError> for CommandBusError {
    open spec fn obeys_from_spec() -> bool {
        true
    }

    open spec fn from_spec(value: ForkFragmentCommandError) -> CommandBusError {
        CommandBusError::ForkFragmentCommand(value)
    }
}

impl From<PublishFragmentCommandError> for CommandBusError {
    fn from(value: PublishFragmentCommandError) -> (e: CommandBusError) {
        CommandBusError::PublishFragmentCommand(value)
    }
}

impl FromSpecImpl<PublishFragmentCommandError> for CommandBusError {
    open spec fn obeys_from_spec() -> bool {
        true
    }

    open spec fn from_spec(value: PublishFragmentCommandError) -> CommandBusError {
        CommandBusError::PublishFragmentCommand(value)
    }
}

impl From<UpdateFragmentCommandError> for CommandBusError {
    fn from(value: UpdateFragmentCommandError) -> (e: CommandBusError) {
        CommandBusError::UpdateFragmentCommand(value)
    }
}

impl FromSpecImpl<UpdateFragmentCommandError> for CommandBusError {
    open spec fn obeys_from_spec() -> bool {
        true
    }

    open spec fn from_spec(value: UpdateFragmentCommandError) -> CommandBusError {
        CommandBusError::UpdateFragmentCommand(value)
    }
}

impl From<ReviewForkCommandError> for CommandBusError {
    fn from(value: ReviewForkCommandError) -> (e: CommandBusError) {
        CommandBusError::ReviewForkCommand(value)
    }
}

impl FromSpecImpl<ReviewForkCommandError> for CommandBusError {
    open spec fn obeys_from_spec() -> bool {
        true
    }

    open spec fn from_spec(value: ReviewForkCommandError) -> CommandBusError {
        CommandBusError::ReviewForkCommand(value)
    }
}

impl From<SubmitForkCommandError> for CommandBusError {
    fn from(value: SubmitForkCommandError) -> (e: CommandBusError) {
        CommandBusError::SubmitForkCommand(value)
    }
}

impl FromSpecImpl<SubmitForkCommandError> for CommandBusError {
    open spec fn obeys_from_spec() -> bool {
        true
    }

    open spec fn from_spec(value: SubmitForkCommandError) -> CommandBusError {
        CommandBusError::SubmitForkCommand(value)
    }
}

impl From<StorageError> for CommandBusError {
    fn from(value: StorageError) -> (e: CommandBusError) {
        CommandBusError::Storage(value)
    }
}

impl FromSpecImpl<StorageError> for CommandBusError {
    open spec fn obeys_from_spec() -> bool {
        true
    }

    open spec fn from_spec(value: StorageError) -> CommandBusError {
        CommandBusError::Storage(value)
    }
}

impl From<TxError> for CommandBusError {
    fn from(value: TxError) -> (e: CommandBusError) {
        CommandBusError::Tx(value)
    }
}

impl FromSpecImpl<TxError> for CommandBusError {
    open spec fn obeys_from_spec() -> bool {
        true
    }

    open spec fn from_spec(value: TxError) -> CommandBusError {
        CommandBusError::Tx(value)
    }
}

} // verus!
