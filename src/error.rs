use vstd::prelude::*;

verus! {

/// Why a call to a remote endpoint gave no usable answer.
#[derive(Debug, Clone, Copy, PartialEq, Eq, Structural)]
pub enum FetchError {
    /// The connection failed, or the answer could not be decoded.
    Transport,
    /// The endpoint answered with a status that is not a success.
    Status(u16),
}

/// Why no valid credential could be obtained.
#[derive(Debug, Clone, Copy, PartialEq, Eq, Structural)]
pub enum AuthError {
    /// The identity provider could not be reached before any exchange.
    Transport,
    /// The redirect listener stopped before a callback carried a code.
    AuthorizationAborted,
    /// The callback's anti-forgery token is not the one sent with the request.
    StateMismatch,
    /// The authorization code could not be exchanged for a credential: the
    /// token endpoint was not reached, answered with a status that is not a
    /// success, or answered without a complete credential (`Transport`).
    ExchangeFailed(FetchError),
    /// The credential record could not be written.
    CredentialPersist,
}

/// Whether an HTTP status is a success (200 to 299).
pub open spec fn is_success(status: u16) -> bool {
    200 <= status && status <= 299
}

pub fn status_is_success(status: u16) -> (r: bool)
    ensures
        r == is_success(status),
{
    200 <= status && status <= 299
}

} // verus!
