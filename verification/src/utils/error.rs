//! Why a request is turned away, and what the client is told.

use vstd::prelude::*;
use vstd::string::*;

use crate::utils::token::TokenError;

verus! {

/// The ways in which a request fails to pass the checkpoint or the guard.
#[derive(Clone, Copy, Debug, PartialEq, Eq, Structural)]
pub enum AuthError {
    /// No token was presented.
    Missing,
    /// The token cannot be read, declares another algorithm, or its
    /// signature is not accepted.
    Malformed,
    /// The token's own lifetime has passed.
    Expired,
    /// The token is sound but its session is gone from the store.
    Revoked,
    /// The session is live but no account stands behind it.
    UnknownPrincipal,
    /// The principal's role is not among those the route allows.
    Forbidden,
    /// The store or the directory could not be reached.
    InfraError,
}

/// The body sent with a failure.
#[derive(Debug)]
pub struct ErrorResponse {
    pub status: String,
    pub message: String,
}

/// The HTTP status of each failure.
pub open spec fn status_of(error: AuthError) -> u16 {
    match error {
        AuthError::Missing => 401,
        AuthError::Malformed => 401,
        AuthError::Expired => 401,
        AuthError::Revoked => 401,
        AuthError::UnknownPrincipal => 401,
        AuthError::Forbidden => 403,
        AuthError::InfraError => 500,
    }
}

/// The word in the `status` field of a failure body: `fail` where the
/// request is at fault, `error` where the service is.
pub open spec fn status_word(code: u16) -> Seq<char> {
    if code >= 500 {
        seq!['e', 'r', 'r', 'o', 'r']
    } else {
        seq!['f', 'a', 'i', 'l']
    }
}

/// The one message sent with each HTTP status. It is chosen by the status
/// alone, so that a client learns nothing beyond the status.
pub open spec fn message_for(code: u16) -> Seq<char> {
    if code == 401 {
        "You are not logged in or your session is no longer valid"@
    } else if code == 403 {
        "You are not allowed to perform this action"@
    } else {
        "The request could not be completed"@
    }
}

/// How a failure of token verification counts at the checkpoint: a signature that
/// is not accepted is reported like any other unusable token.
pub open spec fn of_token_error(error: TokenError) -> AuthError {
    match error {
        TokenError::Malformed => AuthError::Malformed,
        TokenError::InvalidSignature => AuthError::Malformed,
        TokenError::Expired => AuthError::Expired,
    }
}

impl AuthError {
    /// How a failure of token verification counts at the checkpoint.
    pub fn from_token_error(error: TokenError) -> (e: AuthError)
        ensures
            e == of_token_error(error),
    {
        match error {
            TokenError::Malformed => AuthError::Malformed,
            TokenError::InvalidSignature => AuthError::Malformed,
            TokenError::Expired => AuthError::Expired,
        }
    }

    /// The HTTP status sent for this failure.
    pub fn status_code(&self) -> (code: u16)
        ensures
            code == status_of(*self),
    {
        match self {
            AuthError::Forbidden => 403,
            AuthError::InfraError => 500,
            _ => 401,
        }
    }

    /// The body sent for this failure.
    pub fn response(&self) -> (body: ErrorResponse)
        ensures
            body.status@ == status_word(status_of(*self)),
            body.message@ == message_for(status_of(*self)),
    {
        failure_body(self.status_code())
    }
}

/// The body sent with a failure of the given HTTP status.
pub fn failure_body(code: u16) -> (body: ErrorResponse)
    ensures
        body.status@ == status_word(code),
        body.message@ == message_for(code),
{
    proof {
        reveal_strlit("error");
        reveal_strlit("fail");
    }
    let status = if code >= 500 {
        String::from_str("error")
    } else {
        String::from_str("fail")
    };
    assert(status@ =~= status_word(code));
    let message = if code == 401 {
        String::from_str("You are not logged in or your session is no longer valid")
    } else if code == 403 {
        String::from_str("You are not allowed to perform this action")
    } else {
        String::from_str("The request could not be completed")
    };
    ErrorResponse { status, message }
}

/// Failures with the same HTTP status are told to the client in the same
/// words: a revoked session, a deleted account and an unreadable token
/// cannot be told apart.
pub proof fn law_same_status_same_words(a: AuthError, b: AuthError)
    requires
        status_of(a) == status_of(b),
    ensures
        status_word(status_of(a)) == status_word(status_of(b)),
        message_for(status_of(a)) == message_for(status_of(b)),
{
}

/// No failure of token verification is reported as a fault of the service.
pub proof fn law_token_errors_are_unauthorized(error: TokenError)
    ensures
        status_of(of_token_error(error)) == 401,
{
}

} // verus!
