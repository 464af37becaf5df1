use vstd::prelude::*;
use crate::commons::actor::{Actor, ActorTrait};
use crate::commons::id::Id;

verus! {

/// A registered user.
#[derive(Debug, Clone, Copy, PartialEq, Eq, Structural)]
pub struct User {
    pub id: Id,
}

impl User {
    pub fn id(&self) -> (id: Id)
        ensures
            id == self.id,
    {
        self.id
    }
}

impl ActorTrait for User {
    /// A user acts as itself.
    open spec fn spec_actor(&self) -> Actor {
        Actor::User(self.id)
    }

    fn actor(&self) -> (a: Actor) {
        Actor::User(self.id)
    }
}

} // verus!
