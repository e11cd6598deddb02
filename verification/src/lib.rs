//! Generic interactive resource-action workflows for a command-line tool.
//!
//! A command that shows or deletes named items (nodes, identities, project
//! addons, ...) follows one decision tree: enumerate the item names, branch
//! on how many there are and on how the command was invoked, possibly ask
//! the user to select items or to confirm a destructive action, then act on
//! one or many names. This crate holds that decision tree, verified.
//!
//! The outside world (the adapter that lists and acts on items, and the
//! terminal that prompts) is kept behind a small protocol: each workflow is
//! a session that, fed an [`action::Event`], returns the next
//! [`action::Action`] the driver must perform. The driver performs it,
//! reports the outcome as the next event, and the session decides again.

pub mod action;
pub mod addon;
pub mod delete;
pub mod error;
pub mod laws;
pub mod message;
pub mod show;
