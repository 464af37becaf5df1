use vstd::prelude::*;
use crate::commons::actor::{ActorType};
use crate::commons::clock::DateTime;
use crate::commons::events::EventType;
use crate::commons::id::{is_random_uuid, Id};
use crate::events::Event;

verus! {

/// The serialized (JSON) form of an event or a command, as the store keeps it.
#[derive(Debug, PartialEq, Eq)]
pub struct EventData {
    pub json: String,
}

impl Clone for EventData {
    fn clone(&self) -> (d: EventData)
        ensures
            d == *self,
    {
        EventData { json: self.json.clone() }
    }
}

/// An entry of the event log.
#[derive(Debug)]
pub struct DbEvent {
    pub id: Id,
    pub event_type: EventType,
    pub event_data: EventData,
    pub timestamp: DateTime,
    pub actor_id: Option<Id>,
    pub actor_type: ActorType,
}

impl DbEvent {
    /// The log entry with id `id` for `event`, whose serialized form is `data`:
    /// it carries the event's type, time and actor.
    pub fn from_event<E: Event>(id: Id, event: &E, data: EventData) -> (r: DbEvent)
        ensures
            r.id == id,
            r.event_type == event.spec_event_type(),
            r.event_data == data,
            r.timestamp == event.spec_timestamp(),
            r.actor_id == event.spec_event_actor().spec_id(),
            r.actor_type == event.spec_event_actor().spec_actor_type(),
    {
        let actor = event.actor();
        DbEvent {
            id,
            event_type: event.event_type(),
            event_data: data,
            timestamp: event.timestamp(),
            actor_id: actor.id(),
            actor_type: crate::commons::actor::ActorType::from_actor(&actor),
        }
    }

    /// The log entry for `event` under a fresh random id.
    pub fn new<E: Event>(event: &E, data: EventData) -> (r: DbEvent)
        ensures
            is_random_uuid(r.id.value),
            r.event_type == event.spec_event_type(),
            r.event_data == data,
            r.timestamp == event.spec_timestamp(),
            r.actor_id == event.spec_event_actor().spec_id(),
            r.actor_type == event.spec_event_actor().spec_actor_type(),
    {
        DbEvent::from_event(Id::new(), event, data)
    }

    pub fn id(&self) -> (id: Id)
        ensures
            id == self.id,
    {
        self.id
    }
}

} // verus!
