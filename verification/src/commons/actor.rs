use vstd::prelude::*;
use crate::commons::id::Id;

verus! {

/// Whether an actor is a user or the system itself.
#[derive(Debug, Clone, Copy, PartialEq, Eq, Structural)]
pub enum ActorType {
    User,
    System,
}

/// Who performs a command: a user, known by id, or the system.
#[derive(Debug, Clone, Copy, PartialEq, Eq, Structural)]
pub enum Actor {
    User(Id),
    System,
}

impl Actor {
    /// The user's id for a user actor, `None` for the system.
    pub open spec fn spec_id(self) -> Option<Id> {
        match self {
            Actor::User(id) => Some(id),
            Actor::System => None,
        }
    }

    /// The kind of the actor.
    pub open spec fn spec_actor_type(self) -> ActorType {
        match self {
            Actor::User(_) => ActorType::User,
            Actor::System => ActorType::System,
        }
    }

    pub fn is_user(&self) -> (b: bool)
        ensures
            b == (*self is User),
    {
        match self {
            Actor::User(_) => true,
            Actor::System => false,
        }
    }

    pub fn id(&self) -> (r: Option<Id>)
        ensures
            r == self.spec_id(),
    {
        match self {
            Actor::User(id) => Some(*id),
            Actor::System => None,
        }
    }
}

impl ActorType {
    /// The kind of an actor.
    pub fn from_actor(value: &Actor) -> (t: ActorType)
        ensures
            t == value.spec_actor_type(),
    {
        match value {
            Actor::User(_) => ActorType::User,
            Actor::System => ActorType::System,
        }
    }
}

impl<'a> From<&'a Actor> for ActorType {
    fn from(value: &'a Actor) -> (t: ActorType) {
        ActorType::from_actor(value)
    }
}

impl<'a> vstd::std_specs::convert::FromSpecImpl<&'a Actor> for ActorType {
    open spec fn obeys_from_spec() -> bool {
        true
    }

    open spec fn from_spec(value: &'a Actor) -> ActorType {
        value.spec_actor_type()
    }
}

/// Anything that acts on behalf of an actor.
pub trait ActorTrait {
    /// The actor behind the value.
    spec fn spec_actor(&self) -> Actor;

    fn actor(&self) -> (a: Actor)
        ensures
            a == self.spec_actor(),
    ;

    fn id(&self) -> (r: Option<Id>)
        ensures
            r == self.spec_actor().spec_id(),
    {
        self.actor().id()
    }

    fn actor_type(&self) -> (t: ActorType)
        ensures
            t == self.spec_actor().spec_actor_type(),
    {
        ActorType::from_actor(&self.actor())
    }
}

impl ActorTrait for Actor {
    open spec fn spec_actor(&self) -> Actor {
        *self
    }

    fn actor(&self) -> (a: Actor) {
        *self
    }
}

} // verus!
