//! Commands, their handlers' decisions, and the executor that runs a
//! command inside one store transaction.

pub mod bus;
pub mod command;
pub mod error;
pub mod handler;
pub mod handler_laws;
pub mod laws;
