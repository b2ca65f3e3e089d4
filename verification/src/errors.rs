use vstd::prelude::*;

verus! {

/// Failures of the token-acquisition protocol.
#[derive(Clone, Copy, Debug, PartialEq, Eq, Structural)]
pub enum AuthError {
    /// The credential exchange for a long-lived token was rejected; the field
    /// holds the HTTP status the server answered with.
    LongTokenRejected(u16),
    /// The exchange of a long-lived token for a short-lived one was rejected;
    /// the field holds the HTTP status the server answered with.
    ShortTokenRejected(u16),
    /// The server's `expires_at` value could not be read as an RFC 3339
    /// timestamp. The token is not cached in that case.
    MalformedExpiry,
    /// The transport failed: the request could not be sent, timed out, or a
    /// success response carried a body that could not be decoded.
    Transport,
}

/// Failures of a job submission.
#[derive(Clone, Copy, Debug, PartialEq, Eq, Structural)]
pub enum RequestError {
    /// The business endpoint answered with a non-success status, after the one
    /// permitted retry where one applies; the field holds that status.
    Failed(u16),
    /// Authentication failed before the business request could be authorized.
    Auth(AuthError),
    /// The transport failed on the business request itself.
    Transport,
}

} // verus!
