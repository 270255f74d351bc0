//! A minimal real-time chat backend core: clients register a username,
//! receive a signed session credential, post text messages, and poll for
//! the accumulated message history.
//!
//! The crate holds the protocol logic only: the session authority (who is
//! registered, which credentials are valid), the append-only message log,
//! and the dispatcher that routes a parsed request to a response.  The
//! network transport and the unrelated HTTP endpoints live outside.

pub mod chat;
pub mod jsonval;
pub mod laws;
pub mod protocol;
pub mod render;
pub mod token;
