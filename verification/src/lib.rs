//! Pi-Bot's logic: linking a Discord identity to a Scioly.org account over
//! OAuth, keeping the cached profile fresh, and the rules behind the bot's
//! other commands.
//!
//! The linking flow is written against a store and against the answers of
//! the identity provider, both as plain values, so that every step of it is
//! stated and proved. Talking to the database, to the provider and to
//! Discord is left to the program around this library.

pub mod callback;
pub mod censor;
pub mod event;
pub mod fun;
pub mod general;
pub mod laws;
pub mod link;
pub mod oauth;
pub mod pronouns;
pub mod reader;
pub mod staff;
pub mod store;
pub mod table;
pub mod text;
