use vstd::prelude::*;
use crate::commons::actor::{Actor, ActorTrait};
use crate::commons::commands::CommandType;
use crate::events::Event;

pub mod create_fragment;
pub mod dislike_fragment;
pub mod follow_user;
pub mod fork_fragment;
pub mod like_fragment;
pub mod publish_fragment;
pub mod review_fork;
pub mod submit_fork;
pub mod unfollow_user;
pub mod update_fragment;

verus! {

/// A request that a user makes of the service. Its handler decides, from what
/// the store holds, what to write and which event to log.
pub trait Command {
    /// The event that a successful handling may log.
    type Event: Event;

    spec fn spec_command_type(&self) -> CommandType;

    /// Whether the actor may issue the command.
    spec fn spec_supports(&self, actor: Actor) -> bool;

    fn command_type(&self) -> (t: CommandType)
        ensures
            t == self.spec_command_type(),
    ;

    fn supports<A: ActorTrait>(&self, actor: &A) -> (b: bool)
        ensures
            b == self.spec_supports(actor.spec_actor()),
    ;
}

} // verus!
