use vstd::prelude::*;
use crate::commons::actor::ActorType;
use crate::commons::clock::DateTime;
use crate::commons::commands::CommandType;
use crate::commons::id::Id;
use crate::storage::model::event::EventData;

verus! {

/// A command scheduled to run at a later time.
#[derive(Debug)]
pub struct Task {
    pub id: Id,
    pub command_type: CommandType,
    pub command_data: EventData,
    pub actor_type: ActorType,
    pub actor_id: Option<Id>,
    pub scheduled_at: DateTime,
}

} // verus!
