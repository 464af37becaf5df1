//! Vocabulary shared by the store and the command handlers: identifiers,
//! actors, timestamps, fragment contents, review comments, and the kinds of
//! commands and events.

pub mod actor;
pub mod clock;
pub mod commands;
pub mod events;
pub mod fragment;
pub mod id;
pub mod review;
