//! The lifecycle of one client connection.
//!
//! A session starts uninitialized. A handshake that asks for the supported
//! protocol version initializes it; the first event after that makes it
//! active. Tool calls are accepted only by an initialized or active session.
//! A second handshake is rejected with `AlreadyInitialized` and changes
//! nothing. Closing is allowed from every state and is final.
use vstd::prelude::*;
use crate::error::ErrorKind;

verus! {

/// The protocol version this server speaks.
pub const PROTOCOL_VERSION: &'static str = "2024-11-05";

#[derive(Clone, Copy, Debug, PartialEq, Eq, Structural)]
pub enum SessionState {
    Uninitialized,
    Initialized,
    Active,
    Closed,
}

/// Tool calls are accepted in this state.
pub open spec fn ready(s: SessionState) -> bool {
    s is Initialized || s is Active
}

/// The state after a handshake asking for `version`.
pub open spec fn state_after_initialize(s: SessionState, version: Seq<char>) -> SessionState {
    if s is Uninitialized && version == PROTOCOL_VERSION@ {
        SessionState::Initialized
    } else {
        s
    }
}

/// The state after any other event: an initialized session becomes active.
pub open spec fn state_after_event(s: SessionState) -> SessionState {
    if s is Initialized {
        SessionState::Active
    } else {
        s
    }
}

/// The server side of one connection.
#[derive(Debug)]
pub struct Session {
    pub state: SessionState,
}

impl Session {
    /// A new, uninitialized session.
    pub fn new() -> (s: Session)
        ensures
            s.state == SessionState::Uninitialized,
    {
        Session { state: SessionState::Uninitialized }
    }

    /// Whether tool calls are accepted.
    pub fn is_ready(&self) -> (r: bool)
        ensures
            r == ready(self.state),
    {
        match self.state {
            SessionState::Initialized | SessionState::Active => true,
            _ => false,
        }
    }

    /// The handshake. Succeeds exactly on an uninitialized session asked for
    /// the supported version; otherwise the state stays as it was.
    pub fn initialize(&mut self, version: &String) -> (r: Result<(), ErrorKind>)
        ensures
            final(self).state == state_after_initialize(old(self).state, version@),
            old(self).state is Uninitialized && version@ == PROTOCOL_VERSION@ ==> r is Ok,
            old(self).state is Uninitialized && version@ != PROTOCOL_VERSION@ ==> r matches Err(
                ErrorKind::UnsupportedVersion,
            ),
            ready(old(self).state) ==> r matches Err(ErrorKind::AlreadyInitialized),
            old(self).state is Closed ==> r matches Err(ErrorKind::SessionNotReady),
    {
        match self.state {
            SessionState::Uninitialized => {
                let supported = String::from_str(PROTOCOL_VERSION);
                if *version == supported {
                    self.state = SessionState::Initialized;
                    Ok(())
                } else {
                    Err(ErrorKind::UnsupportedVersion)
                }
            },
            SessionState::Initialized | SessionState::Active => Err(ErrorKind::AlreadyInitialized),
            SessionState::Closed => Err(ErrorKind::SessionNotReady),
        }
    }

    /// Records an event after the handshake.
    pub fn observe_event(&mut self)
        ensures
            final(self).state == state_after_event(old(self).state),
    {
        if self.state == SessionState::Initialized {
            self.state = SessionState::Active;
        }
    }

    /// Closes the session, from whatever state.
    pub fn close(&mut self)
        ensures
            final(self).state == SessionState::Closed,
    {
        self.state = SessionState::Closed;
    }
}

} // verus!
