//! The session manager: one authentication exchange at startup yields a
//! session credential, and the two startup failures stay distinguishable so
//! the caller can diagnose them differently.

use vstd::prelude::*;
use crate::errors::ClientError;

verus! {

/// An authenticated session: the opaque credential (a bearer token or a
/// session handle) used by every subsequent call.
#[derive(Debug)]
pub struct Session {
    pub credential: String,
    pub connected: bool,
}

/// What the transport reported for the one login exchange.
pub enum LoginOutcome {
    /// The endpoint answered and issued this credential.
    TokenIssued(String),
    /// The endpoint answered and rejected the credentials.
    BadCredentials,
    /// The endpoint could not be reached.
    Unreachable,
}

/// Turns the transport's login outcome into a session or a startup error.
/// An unreachable endpoint and rejected credentials map to distinct fatal
/// errors; there is no retry at this layer.
pub fn session_from_login(outcome: LoginOutcome) -> (r: Result<Session, ClientError>)
    ensures
        match outcome {
            LoginOutcome::TokenIssued(t) => (r matches Ok(s) && s.credential == t && s.connected),
            LoginOutcome::BadCredentials => r == Err::<Session, ClientError>(
                ClientError::AuthError,
            ),
            LoginOutcome::Unreachable => r == Err::<Session, ClientError>(
                ClientError::ConnectionError,
            ),
        },
        (r matches Err(e) ==> e.spec_is_fatal()),
{
    match outcome {
        LoginOutcome::TokenIssued(token) => Ok(
            Session { credential: token, connected: true },
        ),
        LoginOutcome::BadCredentials => Err(ClientError::AuthError),
        LoginOutcome::Unreachable => Err(ClientError::ConnectionError),
    }
}

} // verus!
