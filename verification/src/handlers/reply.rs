//! What a client is sent when a course of events has ended: the status, the
//! cookies to set or clear, and the body.

use vstd::prelude::*;
use vstd::string::*;

use crate::dtos::global::Response;
use crate::dtos::token::{RefreshTokenResponseDto, TokenData};
use crate::dtos::user::UserLoginResponseDto;
use crate::handlers::auth_handler::{FlowFailure, Grant};
use crate::utils::error::{failure_body, message_for, status_of, status_word, AuthError, ErrorResponse};
use crate::utils::token::{IssuedToken, TokenClaims};

verus! {

/// The cookies that the service sets.
#[derive(Clone, Copy, Debug, PartialEq, Eq, Structural)]
pub enum CookieName {
    AccessToken,
    RefreshToken,
    /// Readable by scripts, so that a page can tell that someone is logged
    /// in without seeing a token.
    LoggedIn,
}

impl CookieName {
    /// The name of the cookie as clients know it.
    pub open spec fn text(self) -> Seq<char> {
        match self {
            CookieName::AccessToken => "access_token"@,
            CookieName::RefreshToken => "refresh_token"@,
            CookieName::LoggedIn => "logged_in"@,
        }
    }

    /// The name of the cookie as clients know it.
    pub fn as_str(&self) -> (name: &'static str)
        ensures
            name@ == self.text(),
    {
        match self {
            CookieName::AccessToken => "access_token",
            CookieName::RefreshToken => "refresh_token",
            CookieName::LoggedIn => "logged_in",
        }
    }
}

/// A cookie to send, for the path `/`. A negative age clears it.
#[derive(Debug)]
pub struct CookieSpec {
    pub name: CookieName,
    pub value: String,
    /// Seconds.
    pub max_age: i64,
    pub http_only: bool,
}

/// The body of a reply.
#[derive(Debug)]
pub enum ReplyBody {
    Failure(ErrorResponse),
    Report(Response),
    Login(UserLoginResponseDto),
    Refresh(RefreshTokenResponseDto),
}

/// A reply.
#[derive(Debug)]
pub struct Reply {
    pub status: u16,
    pub cookies: Vec<CookieSpec>,
    pub body: ReplyBody,
}

/// The HTTP status of each failure.
pub open spec fn failure_status(failure: FlowFailure) -> u16 {
    match failure {
        FlowFailure::Invalid(_) => 400,
        FlowFailure::EmailTaken => 400,
        FlowFailure::WrongCredentials => 401,
        FlowFailure::Rejected(error) => status_of(error),
        FlowFailure::Signing => 502,
        FlowFailure::Infra => 500,
    }
}

/// The message sent with each failure. What was sent wrongly is named, and
/// a login that fails is told so without saying whether the email address
/// or the password was wrong; every other failure is told in the words of
/// its status alone.
pub open spec fn failure_message(failure: FlowFailure) -> Seq<char> {
    match failure {
        FlowFailure::Invalid(fault) => fault.text(),
        FlowFailure::EmailTaken => "User with that email already exists"@,
        FlowFailure::WrongCredentials => "Email or password is wrong"@,
        _ => message_for(failure_status(failure)),
    }
}

/// Whether a reply reports a failure: no cookie, and a body of the status
/// word and the message.
pub open spec fn reports_failure(reply: Reply, status: u16, message: Seq<char>) -> bool {
    &&& reply.status == status
    &&& reply.cookies@.len() == 0
    &&& reply.body matches ReplyBody::Failure(body) && body.status@ == status_word(status)
        && body.message@ == message
}

/// The seconds that a cookie for a token lasts: as long as the token.
pub open spec fn cookie_age(claims: TokenClaims) -> i64 {
    if claims.issued_at < claims.expires_at && claims.expires_at - claims.issued_at
        <= i64::MAX {
        (claims.expires_at - claims.issued_at) as i64
    } else {
        0
    }
}

/// Whether a cookie carries a token to the client, out of reach of scripts.
pub open spec fn carries(cookie: CookieSpec, name: CookieName, token: IssuedToken) -> bool {
    &&& cookie.name == name
    &&& cookie.value == token.token
    &&& cookie.max_age == cookie_age(token.claims)
    &&& cookie.http_only
}

/// Whether a cookie tells scripts that someone is logged in, for as long as
/// the access token lasts.
pub open spec fn flags_login(cookie: CookieSpec, access: IssuedToken) -> bool {
    &&& cookie.name == CookieName::LoggedIn
    &&& cookie.value@ == "true"@
    &&& cookie.max_age == cookie_age(access.claims)
    &&& !cookie.http_only
}

/// Whether a cookie clears the one of its name.
pub open spec fn clears(cookie: CookieSpec, name: CookieName) -> bool {
    &&& cookie.name == name
    &&& cookie.value@.len() == 0
    &&& cookie.max_age == -1
    &&& cookie.http_only
}

/// Whether cookies carry the tokens of a grant: the access token, the
/// refresh token where there is one, and the flag.
pub open spec fn carry_grant(cookies: Seq<CookieSpec>, grant: Grant) -> bool {
    match grant.refresh {
        Some(refresh) => {
            &&& cookies.len() == 3
            &&& carries(cookies[0], CookieName::AccessToken, grant.access)
            &&& carries(cookies[1], CookieName::RefreshToken, refresh)
            &&& flags_login(cookies[2], grant.access)
        },
        None => {
            &&& cookies.len() == 2
            &&& carries(cookies[0], CookieName::AccessToken, grant.access)
            &&& flags_login(cookies[1], grant.access)
        },
    }
}

/// Whether a body hands out the tokens of a grant.
pub open spec fn hands_out(data: TokenData, grant: Grant) -> bool {
    &&& data.access_token == grant.access.token
    &&& match grant.refresh {
        Some(refresh) => data.refresh_token == Some(refresh.token) && data.refresh_token_expired
            == Some(refresh.claims.expires_at),
        None => data.refresh_token is None && data.refresh_token_expired is None,
    }
}

/// What is sent when a login or a registration has ended.
pub open spec fn login_replied(end: Result<Grant, FlowFailure>, reply: Reply) -> bool {
    match end {
        Err(failure) => reports_failure(reply, failure_status(failure), failure_message(failure)),
        Ok(grant) => {
            &&& reply.status == 201
            &&& carry_grant(reply.cookies@, grant)
            &&& reply.body matches ReplyBody::Login(body) && body.status@ == "success"@
                && hands_out(body.data, grant)
        },
    }
}

/// What is sent when a refresh has ended.
pub open spec fn refresh_replied(end: Result<Grant, FlowFailure>, reply: Reply) -> bool {
    match end {
        Err(failure) => reports_failure(reply, failure_status(failure), failure_message(failure)),
        Ok(grant) => {
            &&& reply.status == 200
            &&& carry_grant(reply.cookies@, grant)
            &&& reply.body matches ReplyBody::Refresh(body) && body.status@ == "success"@
                && hands_out(body.data, grant)
        },
    }
}

/// What is sent when a logout has ended: all three cookies are cleared.
pub open spec fn logout_replied(end: Result<(), FlowFailure>, reply: Reply) -> bool {
    match end {
        Err(failure) => reports_failure(reply, failure_status(failure), failure_message(failure)),
        Ok(_) => {
            &&& reply.status == 200
            &&& reply.cookies@.len() == 3
            &&& clears(reply.cookies@[0], CookieName::AccessToken)
            &&& clears(reply.cookies@[1], CookieName::RefreshToken)
            &&& clears(reply.cookies@[2], CookieName::LoggedIn)
            &&& reply.body matches ReplyBody::Report(body) && body.status@ == "success"@
                && body.message@ == "Account logout successfully"@
        },
    }
}

/// The seconds that a cookie for a token lasts.
fn age_of(claims: &TokenClaims) -> (seconds: i64)
    ensures
        seconds == cookie_age(*claims),
{
    if claims.issued_at < claims.expires_at {
        let span: i128 = claims.expires_at as i128 - claims.issued_at as i128;
        if span <= 0x7fff_ffff_ffff_ffff {
            span as i64
        } else {
            0
        }
    } else {
        0
    }
}

/// The reply to a failure.
pub fn failure_reply(failure: FlowFailure) -> (reply: Reply)
    ensures
        reports_failure(reply, failure_status(failure), failure_message(failure)),
{
    let status: u16 = match failure {
        FlowFailure::Invalid(_) => 400,
        FlowFailure::EmailTaken => 400,
        FlowFailure::WrongCredentials => 401,
        FlowFailure::Rejected(error) => error.status_code(),
        FlowFailure::Signing => 502,
        FlowFailure::Infra => 500,
    };
    let plain = failure_body(status);
    let body = match failure {
        FlowFailure::Invalid(fault) => ErrorResponse {
            status: plain.status,
            message: String::from_str(fault.message()),
        },
        FlowFailure::EmailTaken => ErrorResponse {
            status: plain.status,
            message: String::from_str("User with that email already exists"),
        },
        FlowFailure::WrongCredentials => ErrorResponse {
            status: plain.status,
            message: String::from_str("Email or password is wrong"),
        },
        _ => plain,
    };
    Reply { status, cookies: Vec::new(), body: ReplyBody::Failure(body) }
}

/// The reply to a request that did not pass the checkpoint or the guard.
pub fn rejection_reply(error: AuthError) -> (reply: Reply)
    ensures
        reports_failure(reply, status_of(error), message_for(status_of(error))),
{
    Reply { status: error.status_code(), cookies: Vec::new(), body: ReplyBody::Failure(error.response()) }
}

/// The cookies and the tokens to send for a grant.
fn grant_parts(grant: Grant) -> (parts: (Vec<CookieSpec>, TokenData))
    ensures
        carry_grant(parts.0@, grant),
        hands_out(parts.1, grant),
{
    let mut cookies: Vec<CookieSpec> = Vec::new();
    let access_age: i64 = age_of(&grant.access.claims);
    cookies.push(
        CookieSpec {
            name: CookieName::AccessToken,
            value: grant.access.token.clone(),
            max_age: access_age,
            http_only: true,
        },
    );
    let (refresh_token, refresh_token_expired) = match grant.refresh {
        Some(refresh) => {
            cookies.push(
                CookieSpec {
                    name: CookieName::RefreshToken,
                    value: refresh.token.clone(),
                    max_age: age_of(&refresh.claims),
                    http_only: true,
                },
            );
            (Some(refresh.token), Some(refresh.claims.expires_at))
        },
        None => (None, None),
    };
    cookies.push(
        CookieSpec {
            name: CookieName::LoggedIn,
            value: String::from_str("true"),
            max_age: access_age,
            http_only: false,
        },
    );
    (cookies, TokenData { access_token: grant.access.token, refresh_token, refresh_token_expired })
}

/// The reply to a login or a registration that has ended.
pub fn login_reply(end: Result<Grant, FlowFailure>) -> (reply: Reply)
    ensures
        login_replied(end, reply),
{
    match end {
        Err(failure) => failure_reply(failure),
        Ok(grant) => {
            let (cookies, data) = grant_parts(grant);
            Reply {
                status: 201,
                cookies,
                body: ReplyBody::Login(
                    UserLoginResponseDto { status: String::from_str("success"), data },
                ),
            }
        },
    }
}

/// The reply to a refresh that has ended.
pub fn refresh_reply(end: Result<Grant, FlowFailure>) -> (reply: Reply)
    ensures
        refresh_replied(end, reply),
{
    match end {
        Err(failure) => failure_reply(failure),
        Ok(grant) => {
            let (cookies, data) = grant_parts(grant);
            Reply {
                status: 200,
                cookies,
                body: ReplyBody::Refresh(
                    RefreshTokenResponseDto { status: String::from_str("success"), data },
                ),
            }
        },
    }
}

/// The reply to a logout that has ended.
pub fn logout_reply(end: Result<(), FlowFailure>) -> (reply: Reply)
    ensures
        logout_replied(end, reply),
{
    match end {
        Err(failure) => failure_reply(failure),
        Ok(_) => {
            let mut cookies: Vec<CookieSpec> = Vec::new();
            cookies.push(
                CookieSpec {
                    name: CookieName::AccessToken,
                    value: String::new(),
                    max_age: -1,
                    http_only: true,
                },
            );
            cookies.push(
                CookieSpec {
                    name: CookieName::RefreshToken,
                    value: String::new(),
                    max_age: -1,
                    http_only: true,
                },
            );
            cookies.push(
                CookieSpec {
                    name: CookieName::LoggedIn,
                    value: String::new(),
                    max_age: -1,
                    http_only: true,
                },
            );
            Reply {
                status: 200,
                cookies,
                body: ReplyBody::Report(
                    Response {
                        status: "success",
                        message: String::from_str("Account logout successfully"),
                    },
                ),
            }
        },
    }
}

/// A token that was turned away is told in words that depend on the status
/// alone: an unreadable token, an expired one, a revoked session and a
/// missing account read alike.
pub proof fn law_rejections_tell_only_their_status(a: AuthError, b: AuthError)
    requires
        status_of(a) == status_of(b),
    ensures
        failure_status(FlowFailure::Rejected(a)) == failure_status(FlowFailure::Rejected(b)),
        failure_message(FlowFailure::Rejected(a)) == failure_message(FlowFailure::Rejected(b)),
{
}

/// A token that is missing, unreadable, wrongly signed or expired, a
/// session that is gone and an account that no longer exists are all
/// answered with 401, in a refresh and a logout as at the checkpoint; 403
/// is kept for a role that a route does not allow.
pub proof fn law_token_failures_are_unauthorized(error: AuthError)
    ensures
        failure_status(FlowFailure::Rejected(error)) == status_of(error),
        (error != AuthError::Forbidden && error != AuthError::InfraError) ==> failure_status(
            FlowFailure::Rejected(error),
        ) == 401,
{
}

/// Only a fault of the service is answered with a status of 500 or above.
pub proof fn law_only_faults_of_the_service_are_5xx(failure: FlowFailure)
    ensures
        failure_status(failure) >= 500 <==> (failure == FlowFailure::Signing || failure
            == FlowFailure::Infra || failure == FlowFailure::Rejected(AuthError::InfraError)),
{
}

} // verus!
