//! Core logic of a slash-command chat bot: the command registry, the
//! per-command handlers, and the dispatcher that maps an interaction's
//! command name to its reply.
pub mod commands;
pub mod dispatch;
pub mod options;
pub mod registry;
pub mod replies;
pub mod startup;
pub mod strutil;
