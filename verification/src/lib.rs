//! Tales tree: the verified core of a collaborative story-writing service.
//!
//! Users write story fragments, publish them, fork the fragments of their
//! friends, submit forks for review, like fragments and follow each other.
//! Every request is a command; a command handler decides, from what the
//! store holds, which record to write and which event to append to the
//! event log. This crate holds those decisions, the records they read and
//! write, and the command executor, as verified code; the database is driven
//! by the application around it, which answers the executor's requests.

pub mod commons;
pub mod events;
pub mod storage;
pub mod command_bus;
