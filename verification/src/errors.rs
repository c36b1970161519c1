//! The client's error taxonomy. Startup errors (connection, authentication,
//! provisioning) are fatal; steady-state errors (send, poll, decode) are
//! tolerated and the loop continues after a backoff.

use vstd::prelude::*;

verus! {

/// Every failure the client core can report, one variant per failure class.
#[derive(Copy, Clone, PartialEq, Eq, Structural, Debug)]
pub enum ClientError {
    /// The endpoint was unreachable at startup.
    ConnectionError,
    /// The credentials were rejected at startup.
    AuthError,
    /// A resource could not be created for a reason other than
    /// "already exists".
    ProvisionError,
    /// A publish attempt failed; the message is dropped, not retried.
    SendError,
    /// A poll failed or returned malformed data; triggers a backoff.
    PollError,
    /// A payload could not be decoded; degraded to raw passthrough.
    DecodeError,
}

impl ClientError {
    /// Whether this error aborts the process at startup; steady-state loop
    /// errors are logged and the loop continues after a backoff delay.
    pub fn is_fatal(&self) -> (r: bool)
        ensures
            r == self.spec_is_fatal(),
    {
        match self {
            ClientError::ConnectionError => true,
            ClientError::AuthError => true,
            ClientError::ProvisionError => true,
            ClientError::SendError => false,
            ClientError::PollError => false,
            ClientError::DecodeError => false,
        }
    }

    pub open spec fn spec_is_fatal(&self) -> bool {
        match self {
            ClientError::ConnectionError => true,
            ClientError::AuthError => true,
            ClientError::ProvisionError => true,
            ClientError::SendError => false,
            ClientError::PollError => false,
            ClientError::DecodeError => false,
        }
    }
}

} // verus!
