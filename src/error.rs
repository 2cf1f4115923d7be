//! The kinds of failure that a caller can observe.
use vstd::prelude::*;
use crate::schema::ValidationError;

verus! {

/// Why an invocation or a handshake failed.
#[derive(Debug)]
pub enum ErrorKind {
    /// No schema is known for the tool.
    SchemaNotFound,
    /// The arguments do not fit the tool's schema.
    Validation(ValidationError),
    /// No tool of that name is registered.
    ToolNotFound,
    /// The session is not initialized, or is closed.
    SessionNotReady,
    /// The session was initialized before.
    AlreadyInitialized,
    /// The client asked for a protocol version that the server does not speak.
    UnsupportedVersion,
    /// The handler could not complete (its result would not fit its type).
    InternalError,
}

} // verus!
