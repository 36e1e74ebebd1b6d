//! Error kinds that cross the service boundary.

use vstd::prelude::*;

verus! {

/// Why a session operation was refused or failed.
#[derive(Clone, Copy, Debug, PartialEq, Eq, Structural)]
pub enum SessionError {
    /// No session has the given id.
    NotFound,
    /// The session exists but has been terminated.
    Closed,
    /// The caller's arguments were missing or malformed.
    BadRequest,
    /// The PTY or the operating system failed.
    IoError,
    /// The shell process could not be started.
    SpawnFailed,
    /// Anything else.
    Internal,
}

impl SessionError {
    /// The HTTP status code that stands for this kind at the transport boundary.
    pub open spec fn spec_http_status(self) -> u16 {
        match self {
            SessionError::BadRequest => 400,
            SessionError::NotFound => 404,
            _ => 500,
        }
    }

    /// Maps the kind to its HTTP status code: 400 for a bad request, 404 for a
    /// missing session, 500 for every other kind.
    pub fn http_status(self) -> (code: u16)
        ensures
            code == self.spec_http_status(),
    {
        match self {
            SessionError::BadRequest => 400,
            SessionError::NotFound => 404,
            _ => 500,
        }
    }
}

} // verus!
