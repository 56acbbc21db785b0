//! A verified model of a short interactive dialogue: a trigger message opens
//! a session, the session asks its owner to pick a favorite director from a
//! menu, then collects button presses naming film-set commands, answering
//! each with an ephemeral reply, until the collection window ends and the
//! interactive message is deleted.
//!
//! The crate holds the decision logic only: which inbound events a session
//! accepts, which outbound calls it asks for, and what every outgoing text
//! says. Performing the outbound calls and waiting on the platform gateway
//! is the embedding program's part.

pub mod catalog;
pub mod prompt;
pub mod protocol;
pub mod session;
