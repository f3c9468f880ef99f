//! Registration, login, refresh and logout, each as a state machine.
//!
//! A course of events asks for one thing at a time as an action and takes
//! the answer back as an event. Some actions need only this library and the
//! settings: verifying and issuing tokens, hashing and comparing passwords.
//! `perform` carries those out. The others, the looks into the directory
//! and the reads and writes of the session store, are carried out by
//! whoever drives the machine.

use vstd::prelude::*;
use vstd::string::*;
use vstd::utf8::encode_utf8;

use crate::models::user::UserModel;
use crate::schemas::auth::{AuthFault, LoginUserSchema, RefreshTokenSchema, RegisterUserSchema};
use crate::utils::config::Config;
use crate::utils::error::{of_token_error, AuthError};
use crate::utils::extractor::{Authenticated, UserLookup};
use crate::utils::password::{
    argon2_accepts, compare, comparison, comparison_view, hash, hashed_as, phc_parses,
};
use crate::utils::session::SessionLookup;
use crate::utils::codec::{contains_bytes, holds, uuid_text, write_uuid};
use crate::utils::token::{
    accepted_under, fresh_uuid, is_version_4, issue, issued_afresh, outcome_view, parse_token,
    verdict, verify, IssueError, IssuedToken, TokenClaims, TokenError, TokenKind,
};

verus! {

/// What a write to the session store came to.
#[derive(Clone, Copy, Debug, PartialEq, Eq, Structural)]
pub enum StoreOutcome {
    Done,
    Unreachable,
}

/// What a deletion from the session store came to.
#[derive(Clone, Copy, Debug, PartialEq, Eq, Structural)]
pub enum DeleteOutcome {
    /// The number of sessions that were there to delete.
    Deleted(usize),
    Unreachable,
}

/// What the making of an account came to.
#[derive(Clone, Copy, Debug, PartialEq, Eq, Structural)]
pub enum CreateOutcome {
    Created,
    /// An account with that email address exists.
    Duplicate,
    Failed,
}

/// The words by which the database reports a key that is taken:
/// `Duplicate entry`, as bytes.
pub open spec fn duplicate_mark() -> Seq<u8> {
    seq![68u8, 117u8, 112u8, 108u8, 105u8, 99u8, 97u8, 116u8, 101u8, 32u8, 101u8, 110u8, 116u8,
        114u8, 121u8]
}

/// What the making of an account came to, given the error that the
/// database reported, if any: an error that speaks of a duplicate entry
/// means that the email address is taken, any other that the making failed.
pub open spec fn creation_outcome_of(error: Option<Seq<char>>) -> CreateOutcome {
    match error {
        None => CreateOutcome::Created,
        Some(message) => if holds(encode_utf8(message), duplicate_mark()) {
            CreateOutcome::Duplicate
        } else {
            CreateOutcome::Failed
        },
    }
}

/// Judges what the making of an account came to from the error that the
/// database reported, if any.
pub fn creation_outcome(error: Option<&str>) -> (outcome: CreateOutcome)
    ensures
        outcome == creation_outcome_of(
            match error {
                Some(message) => Some(message@),
                None => None,
            },
        ),
{
    match error {
        None => CreateOutcome::Created,
        Some(message) => {
            let mark: [u8; 15] = [
                68, 117, 112, 108, 105, 99, 97, 116, 101, 32, 101, 110, 116, 114, 121,
            ];
            assert(mark@ =~= duplicate_mark());
            if contains_bytes(message.as_bytes(), mark.as_slice()) {
                CreateOutcome::Duplicate
            } else {
                CreateOutcome::Failed
            }
        },
    }
}

/// Why a course of events ended without what was asked for.
#[derive(Clone, Copy, Debug, PartialEq, Eq, Structural)]
pub enum FlowFailure {
    /// What was sent is not acceptable.
    Invalid(AuthFault),
    /// An account with that email address exists.
    EmailTaken,
    /// No account has that email address, or the password is not its
    /// password.
    WrongCredentials,
    /// The token is missing, unusable or expired, its session is gone, or
    /// no account stands behind it: the failure is the one that the
    /// checkpoint would report.
    Rejected(AuthError),
    /// No token could be signed.
    Signing,
    /// The session store or the directory could not be reached.
    Infra,
}

/// The tokens that a course of events ends with.
#[derive(Debug)]
pub struct Grant {
    pub access: IssuedToken,
    pub refresh: Option<IssuedToken>,
}

/// What a machine asks for.
#[derive(Debug)]
pub enum Action {
    VerifyToken { token: String, kind: TokenKind },
    LookupSession(u128),
    LookupUserById(String),
    LookupUserByEmail(String),
    ComparePassword { password: String, hashed: String },
    /// Draw an id for a new account and hash its password.
    PrepareAccount { password: String },
    CreateUser { user_id: String, name: String, email: String, password_hash: String },
    IssueToken { subject_id: String, kind: TokenKind },
    PutSession { session_id: u128, subject_id: String, ttl_seconds: u64 },
    DeleteSessions { refresh_session: u128, access_session: u128 },
    /// Nothing: the course has ended.
    Finish,
}

/// What a machine is told.
#[derive(Debug)]
pub enum Event {
    Verified(Result<TokenClaims, TokenError>),
    Session(SessionLookup),
    User(UserLookup),
    Compared(Result<bool, String>),
    Prepared { user_id: String, password_hash: Result<String, String> },
    Created(CreateOutcome),
    Issued(Result<IssuedToken, IssueError>),
    Stored(StoreOutcome),
    Deleted(DeleteOutcome),
}

/// The seconds between the issue of a token and its expiry: the lifetime
/// of its session in the store.
pub open spec fn lifetime_seconds(claims: TokenClaims) -> u64 {
    if claims.issued_at < claims.expires_at && claims.expires_at - claims.issued_at
        <= u64::MAX {
        (claims.expires_at - claims.issued_at) as u64
    } else {
        0
    }
}

/// The lifetime of a token's session in the store.
pub fn session_lifetime(claims: &TokenClaims) -> (seconds: u64)
    ensures
        seconds == lifetime_seconds(*claims),
{
    if claims.issued_at < claims.expires_at {
        let span: i128 = claims.expires_at as i128 - claims.issued_at as i128;
        if span <= 0xffff_ffff_ffff_ffff {
            span as u64
        } else {
            0
        }
    } else {
        0
    }
}

/// Where the issuing and recording of tokens stands.
#[derive(Debug)]
pub enum GrantState {
    /// An access token is to be issued; `pair` tells whether a refresh
    /// token follows.
    IssueAccess { subject_id: String, pair: bool },
    IssueRefresh { subject_id: String, access: IssuedToken },
    /// The session of the access token is to be recorded; `awaited` is the
    /// refresh token whose session follows.
    StoreAccess { subject_id: String, access: IssuedToken, awaited: Option<IssuedToken> },
    StoreRefresh { subject_id: String, access: IssuedToken, refresh: IssuedToken },
    Granted(Grant),
    Failed(FlowFailure),
}

/// The state that follows in the issuing and recording of tokens. Tokens
/// are handed out only once every session among them is recorded.
pub open spec fn grant_next(state: GrantState, event: Event) -> GrantState {
    match state {
        GrantState::Granted(g) => GrantState::Granted(g),
        GrantState::Failed(f) => GrantState::Failed(f),
        GrantState::IssueAccess { subject_id, pair } => match event {
            Event::Issued(Ok(access)) => if pair {
                GrantState::IssueRefresh { subject_id, access }
            } else {
                GrantState::StoreAccess { subject_id, access, awaited: None }
            },
            Event::Issued(Err(_)) => GrantState::Failed(FlowFailure::Signing),
            _ => GrantState::Failed(FlowFailure::Infra),
        },
        GrantState::IssueRefresh { subject_id, access } => match event {
            Event::Issued(Ok(refresh)) => GrantState::StoreAccess {
                subject_id,
                access,
                awaited: Some(refresh),
            },
            Event::Issued(Err(_)) => GrantState::Failed(FlowFailure::Signing),
            _ => GrantState::Failed(FlowFailure::Infra),
        },
        GrantState::StoreAccess { subject_id, access, awaited } => match event {
            Event::Stored(StoreOutcome::Done) => match awaited {
                Some(refresh) => GrantState::StoreRefresh { subject_id, access, refresh },
                None => GrantState::Granted(Grant { access, refresh: None }),
            },
            _ => GrantState::Failed(FlowFailure::Infra),
        },
        GrantState::StoreRefresh { subject_id, access, refresh } => match event {
            Event::Stored(StoreOutcome::Done) => GrantState::Granted(
                Grant { access, refresh: Some(refresh) },
            ),
            _ => GrantState::Failed(FlowFailure::Infra),
        },
    }
}

/// What the issuing and recording of tokens asks for.
pub open spec fn grant_action(state: GrantState) -> Action {
    match state {
        GrantState::IssueAccess { subject_id, pair } => Action::IssueToken {
            subject_id,
            kind: TokenKind::Access,
        },
        GrantState::IssueRefresh { subject_id, access } => Action::IssueToken {
            subject_id,
            kind: TokenKind::Refresh,
        },
        GrantState::StoreAccess { subject_id, access, awaited } => Action::PutSession {
            session_id: access.claims.session_id,
            subject_id,
            ttl_seconds: lifetime_seconds(access.claims),
        },
        GrantState::StoreRefresh { subject_id, access, refresh } => Action::PutSession {
            session_id: refresh.claims.session_id,
            subject_id,
            ttl_seconds: lifetime_seconds(refresh.claims),
        },
        GrantState::Granted(_) => Action::Finish,
        GrantState::Failed(_) => Action::Finish,
    }
}

impl GrantState {
    /// Takes one step.
    pub fn step(self, event: Event) -> (next: GrantState)
        ensures
            next == grant_next(self, event),
    {
        match self {
            GrantState::Granted(g) => GrantState::Granted(g),
            GrantState::Failed(f) => GrantState::Failed(f),
            GrantState::IssueAccess { subject_id, pair } => match event {
                Event::Issued(Ok(access)) => if pair {
                    GrantState::IssueRefresh { subject_id, access }
                } else {
                    GrantState::StoreAccess { subject_id, access, awaited: None }
                },
                Event::Issued(Err(_)) => GrantState::Failed(FlowFailure::Signing),
                _ => GrantState::Failed(FlowFailure::Infra),
            },
            GrantState::IssueRefresh { subject_id, access } => match event {
                Event::Issued(Ok(refresh)) => GrantState::StoreAccess {
                    subject_id,
                    access,
                    awaited: Some(refresh),
                },
                Event::Issued(Err(_)) => GrantState::Failed(FlowFailure::Signing),
                _ => GrantState::Failed(FlowFailure::Infra),
            },
            GrantState::StoreAccess { subject_id, access, awaited } => match event {
                Event::Stored(StoreOutcome::Done) => match awaited {
                    Some(refresh) => GrantState::StoreRefresh { subject_id, access, refresh },
                    None => GrantState::Granted(Grant { access, refresh: None }),
                },
                _ => GrantState::Failed(FlowFailure::Infra),
            },
            GrantState::StoreRefresh { subject_id, access, refresh } => match event {
                Event::Stored(StoreOutcome::Done) => GrantState::Granted(
                    Grant { access, refresh: Some(refresh) },
                ),
                _ => GrantState::Failed(FlowFailure::Infra),
            },
        }
    }

    /// What is asked for in this state.
    pub fn action(&self) -> (action: Action)
        ensures
            action == grant_action(*self),
    {
        match self {
            GrantState::IssueAccess { subject_id, pair } => Action::IssueToken {
                subject_id: subject_id.clone(),
                kind: TokenKind::Access,
            },
            GrantState::IssueRefresh { subject_id, access } => Action::IssueToken {
                subject_id: subject_id.clone(),
                kind: TokenKind::Refresh,
            },
            GrantState::StoreAccess { subject_id, access, awaited } => Action::PutSession {
                session_id: access.claims.session_id,
                subject_id: subject_id.clone(),
                ttl_seconds: session_lifetime(&access.claims),
            },
            GrantState::StoreRefresh { subject_id, access, refresh } => Action::PutSession {
                session_id: refresh.claims.session_id,
                subject_id: subject_id.clone(),
                ttl_seconds: session_lifetime(&refresh.claims),
            },
            GrantState::Granted(_) => Action::Finish,
            GrantState::Failed(_) => Action::Finish,
        }
    }
}

/// How a course that ends in tokens has ended, where it has.
pub open spec fn grant_end(state: GrantState) -> Option<Result<Grant, FlowFailure>> {
    match state {
        GrantState::Granted(g) => Some(Ok(g)),
        GrantState::Failed(f) => Some(Err(f)),
        _ => None,
    }
}

/// Where a login stands.
#[derive(Debug)]
pub enum LoginState {
    FindUser { body: LoginUserSchema },
    CheckPassword { user: UserModel, password: String },
    Granting(GrantState),
    Done(Result<Grant, FlowFailure>),
}

/// A login that has moved on in its issuing of tokens.
pub open spec fn login_granting(state: GrantState) -> LoginState {
    match grant_end(state) {
        Some(end) => LoginState::Done(end),
        None => LoginState::Granting(state),
    }
}

/// Where a login that was sent begins.
pub open spec fn login_begun(body: LoginUserSchema, valid: Result<(), AuthFault>) -> LoginState {
    match valid {
        Err(fault) => LoginState::Done(Err(FlowFailure::Invalid(fault))),
        Ok(_) => LoginState::FindUser { body },
    }
}

/// The state that follows in a login. An unknown email address and a wrong
/// password end alike.
pub open spec fn login_next(state: LoginState, event: Event) -> LoginState {
    match state {
        LoginState::Done(end) => LoginState::Done(end),
        LoginState::FindUser { body } => match event {
            Event::User(UserLookup::Found(user)) => LoginState::CheckPassword {
                user,
                password: body.password,
            },
            Event::User(UserLookup::Absent) => LoginState::Done(
                Err(FlowFailure::WrongCredentials),
            ),
            _ => LoginState::Done(Err(FlowFailure::Infra)),
        },
        LoginState::CheckPassword { user, password } => match event {
            Event::Compared(Ok(true)) => LoginState::Granting(
                GrantState::IssueAccess { subject_id: user.id, pair: true },
            ),
            Event::Compared(_) => LoginState::Done(Err(FlowFailure::WrongCredentials)),
            _ => LoginState::Done(Err(FlowFailure::Infra)),
        },
        LoginState::Granting(grant) => login_granting(grant_next(grant, event)),
    }
}

/// What a login asks for.
pub open spec fn login_action(state: LoginState) -> Action {
    match state {
        LoginState::FindUser { body } => Action::LookupUserByEmail(body.email),
        LoginState::CheckPassword { user, password } => Action::ComparePassword {
            password,
            hashed: user.password,
        },
        LoginState::Granting(grant) => grant_action(grant),
        LoginState::Done(_) => Action::Finish,
    }
}

/// Wraps the issuing of tokens into a login.
fn login_wrap(grant: GrantState) -> (state: LoginState)
    ensures
        state == login_granting(grant),
{
    match grant {
        GrantState::Granted(g) => LoginState::Done(Ok(g)),
        GrantState::Failed(f) => LoginState::Done(Err(f)),
        other => LoginState::Granting(other),
    }
}

impl LoginState {
    /// Begins a login with what was sent.
    pub fn begin(body: LoginUserSchema) -> (state: LoginState)
        ensures
            state == login_begun(
                body,
                crate::schemas::auth::outcome_of(
                    crate::schemas::auth::login_fault(
                        body,
                        crate::schemas::auth::email_shaped(body.email@),
                    ),
                ),
            ),
    {
        match body.validate() {
            Err(fault) => LoginState::Done(Err(FlowFailure::Invalid(fault))),
            Ok(_) => LoginState::FindUser { body },
        }
    }

    /// Takes one step.
    pub fn step(self, event: Event) -> (next: LoginState)
        ensures
            next == login_next(self, event),
    {
        match self {
            LoginState::Done(end) => LoginState::Done(end),
            LoginState::FindUser { body } => match event {
                Event::User(UserLookup::Found(user)) => LoginState::CheckPassword {
                    user,
                    password: body.password,
                },
                Event::User(UserLookup::Absent) => LoginState::Done(
                    Err(FlowFailure::WrongCredentials),
                ),
                _ => LoginState::Done(Err(FlowFailure::Infra)),
            },
            LoginState::CheckPassword { user, password } => match event {
                Event::Compared(Ok(true)) => LoginState::Granting(
                    GrantState::IssueAccess { subject_id: user.id, pair: true },
                ),
                Event::Compared(_) => LoginState::Done(Err(FlowFailure::WrongCredentials)),
                _ => LoginState::Done(Err(FlowFailure::Infra)),
            },
            LoginState::Granting(grant) => login_wrap(grant.step(event)),
        }
    }

    /// What is asked for in this state.
    pub fn action(&self) -> (action: Action)
        ensures
            action == login_action(*self),
    {
        match self {
            LoginState::FindUser { body } => Action::LookupUserByEmail(body.email.clone()),
            LoginState::CheckPassword { user, password } => Action::ComparePassword {
                password: password.clone(),
                hashed: user.password.clone(),
            },
            LoginState::Granting(grant) => grant.action(),
            LoginState::Done(_) => Action::Finish,
        }
    }
}

/// Where a registration stands.
#[derive(Debug)]
pub enum RegisterState {
    Prepare { body: RegisterUserSchema },
    Create { user_id: String, name: String, email: String, password_hash: String },
    Granting(GrantState),
    Done(Result<Grant, FlowFailure>),
}

/// A registration that has moved on in its issuing of tokens.
pub open spec fn register_granting(state: GrantState) -> RegisterState {
    match grant_end(state) {
        Some(end) => RegisterState::Done(end),
        None => RegisterState::Granting(state),
    }
}

/// Where a registration that was sent begins.
pub open spec fn register_begun(body: RegisterUserSchema, valid: Result<(), AuthFault>)
    -> RegisterState {
    match valid {
        Err(fault) => RegisterState::Done(Err(FlowFailure::Invalid(fault))),
        Ok(_) => RegisterState::Prepare { body },
    }
}

/// The state that follows in a registration.
pub open spec fn register_next(state: RegisterState, event: Event) -> RegisterState {
    match state {
        RegisterState::Done(end) => RegisterState::Done(end),
        RegisterState::Prepare { body } => match event {
            Event::Prepared { user_id, password_hash: Ok(password_hash) } => RegisterState::Create {
                user_id,
                name: body.name,
                email: body.email,
                password_hash,
            },
            _ => RegisterState::Done(Err(FlowFailure::Infra)),
        },
        RegisterState::Create { user_id, name, email, password_hash } => match event {
            Event::Created(CreateOutcome::Created) => RegisterState::Granting(
                GrantState::IssueAccess { subject_id: user_id, pair: true },
            ),
            Event::Created(CreateOutcome::Duplicate) => RegisterState::Done(
                Err(FlowFailure::EmailTaken),
            ),
            _ => RegisterState::Done(Err(FlowFailure::Infra)),
        },
        RegisterState::Granting(grant) => register_granting(grant_next(grant, event)),
    }
}

/// What a registration asks for.
pub open spec fn register_action(state: RegisterState) -> Action {
    match state {
        RegisterState::Prepare { body } => Action::PrepareAccount { password: body.password },
        RegisterState::Create { user_id, name, email, password_hash } => Action::CreateUser {
            user_id,
            name,
            email,
            password_hash,
        },
        RegisterState::Granting(grant) => grant_action(grant),
        RegisterState::Done(_) => Action::Finish,
    }
}

/// Wraps the issuing of tokens into a registration.
fn register_wrap(grant: GrantState) -> (state: RegisterState)
    ensures
        state == register_granting(grant),
{
    match grant {
        GrantState::Granted(g) => RegisterState::Done(Ok(g)),
        GrantState::Failed(f) => RegisterState::Done(Err(f)),
        other => RegisterState::Granting(other),
    }
}

impl RegisterState {
    /// Begins a registration with what was sent.
    pub fn begin(body: RegisterUserSchema) -> (state: RegisterState)
        ensures
            state == register_begun(
                body,
                crate::schemas::auth::outcome_of(
                    crate::schemas::auth::register_fault(
                        body,
                        crate::schemas::auth::email_shaped(body.email@),
                    ),
                ),
            ),
    {
        match body.validate() {
            Err(fault) => RegisterState::Done(Err(FlowFailure::Invalid(fault))),
            Ok(_) => RegisterState::Prepare { body },
        }
    }

    /// Takes one step.
    pub fn step(self, event: Event) -> (next: RegisterState)
        ensures
            next == register_next(self, event),
    {
        match self {
            RegisterState::Done(end) => RegisterState::Done(end),
            RegisterState::Prepare { body } => match event {
                Event::Prepared { user_id, password_hash: Ok(password_hash) } => {
                    RegisterState::Create {
                        user_id,
                        name: body.name,
                        email: body.email,
                        password_hash,
                    }
                },
                _ => RegisterState::Done(Err(FlowFailure::Infra)),
            },
            RegisterState::Create { user_id, name, email, password_hash } => match event {
                Event::Created(CreateOutcome::Created) => RegisterState::Granting(
                    GrantState::IssueAccess { subject_id: user_id, pair: true },
                ),
                Event::Created(CreateOutcome::Duplicate) => RegisterState::Done(
                    Err(FlowFailure::EmailTaken),
                ),
                _ => RegisterState::Done(Err(FlowFailure::Infra)),
            },
            RegisterState::Granting(grant) => register_wrap(grant.step(event)),
        }
    }

    /// What is asked for in this state.
    pub fn action(&self) -> (action: Action)
        ensures
            action == register_action(*self),
    {
        match self {
            RegisterState::Prepare { body } => Action::PrepareAccount {
                password: body.password.clone(),
            },
            RegisterState::Create { user_id, name, email, password_hash } => Action::CreateUser {
                user_id: user_id.clone(),
                name: name.clone(),
                email: email.clone(),
                password_hash: password_hash.clone(),
            },
            RegisterState::Granting(grant) => grant.action(),
            RegisterState::Done(_) => Action::Finish,
        }
    }
}

/// Where a refresh stands.
#[derive(Debug)]
pub enum RefreshState {
    Verify { token: String },
    SessionCheck { claims: TokenClaims },
    UserResolution { subject_id: String },
    Granting(GrantState),
    Done(Result<Grant, FlowFailure>),
}

/// A refresh that has moved on in its issuing of a token.
pub open spec fn refresh_granting(state: GrantState) -> RefreshState {
    match grant_end(state) {
        Some(end) => RefreshState::Done(end),
        None => RefreshState::Granting(state),
    }
}

/// Where a refresh that was sent begins.
pub open spec fn refresh_begun(body: RefreshTokenSchema) -> RefreshState {
    if body.refresh_token@.len() == 0 {
        RefreshState::Done(Err(FlowFailure::Rejected(AuthError::Missing)))
    } else {
        RefreshState::Verify { token: body.refresh_token }
    }
}

/// The state that follows in a refresh. The refresh token and its session
/// are only read; what is issued is an access token with a session of its
/// own.
pub open spec fn refresh_next(state: RefreshState, event: Event) -> RefreshState {
    match state {
        RefreshState::Done(end) => RefreshState::Done(end),
        RefreshState::Verify { token } => match event {
            Event::Verified(Ok(claims)) => RefreshState::SessionCheck { claims },
            Event::Verified(Err(e)) => RefreshState::Done(
                Err(FlowFailure::Rejected(of_token_error(e))),
            ),
            _ => RefreshState::Done(Err(FlowFailure::Infra)),
        },
        RefreshState::SessionCheck { claims } => match event {
            Event::Session(SessionLookup::Found(subject_id)) => RefreshState::UserResolution {
                subject_id,
            },
            Event::Session(SessionLookup::Absent) => RefreshState::Done(
                Err(FlowFailure::Rejected(AuthError::Revoked)),
            ),
            _ => RefreshState::Done(Err(FlowFailure::Infra)),
        },
        RefreshState::UserResolution { subject_id } => match event {
            Event::User(UserLookup::Found(user)) => RefreshState::Granting(
                GrantState::IssueAccess { subject_id: user.id, pair: false },
            ),
            Event::User(UserLookup::Absent) => RefreshState::Done(
                Err(FlowFailure::Rejected(AuthError::UnknownPrincipal)),
            ),
            _ => RefreshState::Done(Err(FlowFailure::Infra)),
        },
        RefreshState::Granting(grant) => refresh_granting(grant_next(grant, event)),
    }
}

/// What a refresh asks for.
pub open spec fn refresh_action(state: RefreshState) -> Action {
    match state {
        RefreshState::Verify { token } => Action::VerifyToken { token, kind: TokenKind::Refresh },
        RefreshState::SessionCheck { claims } => Action::LookupSession(claims.session_id),
        RefreshState::UserResolution { subject_id } => Action::LookupUserById(subject_id),
        RefreshState::Granting(grant) => grant_action(grant),
        RefreshState::Done(_) => Action::Finish,
    }
}

/// Wraps the issuing of a token into a refresh.
fn refresh_wrap(grant: GrantState) -> (state: RefreshState)
    ensures
        state == refresh_granting(grant),
{
    match grant {
        GrantState::Granted(g) => RefreshState::Done(Ok(g)),
        GrantState::Failed(f) => RefreshState::Done(Err(f)),
        other => RefreshState::Granting(other),
    }
}

impl RefreshState {
    /// Begins a refresh with what was sent.
    pub fn begin(body: RefreshTokenSchema) -> (state: RefreshState)
        ensures
            state == refresh_begun(body),
    {
        match body.validate() {
            Err(_) => RefreshState::Done(Err(FlowFailure::Rejected(AuthError::Missing))),
            Ok(_) => RefreshState::Verify { token: body.refresh_token },
        }
    }

    /// Takes one step.
    pub fn step(self, event: Event) -> (next: RefreshState)
        ensures
            next == refresh_next(self, event),
    {
        match self {
            RefreshState::Done(end) => RefreshState::Done(end),
            RefreshState::Verify { token } => match event {
                Event::Verified(Ok(claims)) => RefreshState::SessionCheck { claims },
                Event::Verified(Err(e)) => RefreshState::Done(
                    Err(FlowFailure::Rejected(AuthError::from_token_error(e))),
                ),
                _ => RefreshState::Done(Err(FlowFailure::Infra)),
            },
            RefreshState::SessionCheck { claims } => match event {
                Event::Session(SessionLookup::Found(subject_id)) => RefreshState::UserResolution {
                    subject_id,
                },
                Event::Session(SessionLookup::Absent) => RefreshState::Done(
                    Err(FlowFailure::Rejected(AuthError::Revoked)),
                ),
                _ => RefreshState::Done(Err(FlowFailure::Infra)),
            },
            RefreshState::UserResolution { subject_id } => match event {
                Event::User(UserLookup::Found(user)) => RefreshState::Granting(
                    GrantState::IssueAccess { subject_id: user.id, pair: false },
                ),
                Event::User(UserLookup::Absent) => RefreshState::Done(
                    Err(FlowFailure::Rejected(AuthError::UnknownPrincipal)),
                ),
                _ => RefreshState::Done(Err(FlowFailure::Infra)),
            },
            RefreshState::Granting(grant) => refresh_wrap(grant.step(event)),
        }
    }

    /// What is asked for in this state.
    pub fn action(&self) -> (action: Action)
        ensures
            action == refresh_action(*self),
    {
        match self {
            RefreshState::Verify { token } => Action::VerifyToken {
                token: token.clone(),
                kind: TokenKind::Refresh,
            },
            RefreshState::SessionCheck { claims } => Action::LookupSession(claims.session_id),
            RefreshState::UserResolution { subject_id } => Action::LookupUserById(
                subject_id.clone(),
            ),
            RefreshState::Granting(grant) => grant.action(),
            RefreshState::Done(_) => Action::Finish,
        }
    }
}

/// Where a logout stands.
#[derive(Debug)]
pub enum LogoutState {
    Verify { access_session: u128, token: String },
    Delete { access_session: u128, refresh_session: u128 },
    Done(Result<(), FlowFailure>),
}

/// Where the logout of an authenticated request begins, given the refresh
/// token in its cookie.
pub open spec fn logout_begun(auth: Authenticated, refresh_cookie: Option<String>) -> LogoutState {
    match refresh_cookie {
        None => LogoutState::Done(Err(FlowFailure::Rejected(AuthError::Missing))),
        Some(token) => LogoutState::Verify { access_session: auth.access_token_uuid, token },
    }
}

/// The state that follows in a logout. Both sessions are deleted together.
pub open spec fn logout_next(state: LogoutState, event: Event) -> LogoutState {
    match state {
        LogoutState::Done(end) => LogoutState::Done(end),
        LogoutState::Verify { access_session, token } => match event {
            Event::Verified(Ok(claims)) => LogoutState::Delete {
                access_session,
                refresh_session: claims.session_id,
            },
            Event::Verified(Err(e)) => LogoutState::Done(
                Err(FlowFailure::Rejected(of_token_error(e))),
            ),
            _ => LogoutState::Done(Err(FlowFailure::Infra)),
        },
        LogoutState::Delete { access_session, refresh_session } => match event {
            Event::Deleted(DeleteOutcome::Deleted(_)) => LogoutState::Done(Ok(())),
            _ => LogoutState::Done(Err(FlowFailure::Infra)),
        },
    }
}

/// What a logout asks for.
pub open spec fn logout_action(state: LogoutState) -> Action {
    match state {
        LogoutState::Verify { access_session, token } => Action::VerifyToken {
            token,
            kind: TokenKind::Refresh,
        },
        LogoutState::Delete { access_session, refresh_session } => Action::DeleteSessions {
            refresh_session,
            access_session,
        },
        LogoutState::Done(_) => Action::Finish,
    }
}

impl LogoutState {
    /// Begins the logout of an authenticated request.
    pub fn begin(auth: &Authenticated, refresh_cookie: Option<String>) -> (state: LogoutState)
        ensures
            state == logout_begun(*auth, refresh_cookie),
    {
        match refresh_cookie {
            None => LogoutState::Done(Err(FlowFailure::Rejected(AuthError::Missing))),
            Some(token) => LogoutState::Verify { access_session: auth.access_token_uuid, token },
        }
    }

    /// Takes one step.
    pub fn step(self, event: Event) -> (next: LogoutState)
        ensures
            next == logout_next(self, event),
    {
        match self {
            LogoutState::Done(end) => LogoutState::Done(end),
            LogoutState::Verify { access_session, token } => match event {
                Event::Verified(Ok(claims)) => LogoutState::Delete {
                    access_session,
                    refresh_session: claims.session_id,
                },
                Event::Verified(Err(e)) => LogoutState::Done(
                    Err(FlowFailure::Rejected(AuthError::from_token_error(e))),
                ),
                _ => LogoutState::Done(Err(FlowFailure::Infra)),
            },
            LogoutState::Delete { access_session, refresh_session } => match event {
                Event::Deleted(DeleteOutcome::Deleted(_)) => LogoutState::Done(Ok(())),
                _ => LogoutState::Done(Err(FlowFailure::Infra)),
            },
        }
    }

    /// What is asked for in this state.
    pub fn action(&self) -> (action: Action)
        ensures
            action == logout_action(*self),
    {
        match self {
            LogoutState::Verify { access_session, token } => Action::VerifyToken {
                token: token.clone(),
                kind: TokenKind::Refresh,
            },
            LogoutState::Delete { access_session, refresh_session } => Action::DeleteSessions {
                refresh_session: *refresh_session,
                access_session: *access_session,
            },
            LogoutState::Done(_) => Action::Finish,
        }
    }
}


/// The key that tokens of a kind are verified with.
pub open spec fn public_key_of(config: Config, kind: TokenKind) -> String {
    match kind {
        TokenKind::Access => config.access_token_public_key,
        TokenKind::Refresh => config.refresh_token_public_key,
    }
}

/// The key that tokens of a kind are signed with.
pub open spec fn private_key_of(config: Config, kind: TokenKind) -> String {
    match kind {
        TokenKind::Access => config.access_token_private_key,
        TokenKind::Refresh => config.refresh_token_private_key,
    }
}

/// The minutes that tokens of a kind live.
pub open spec fn max_age_of(config: Config, kind: TokenKind) -> i64 {
    match kind {
        TokenKind::Access => config.access_token_max_age,
        TokenKind::Refresh => config.refresh_token_max_age,
    }
}

/// Whether an action needs nothing but this library and the settings.
pub open spec fn is_local(action: Action) -> bool {
    action is VerifyToken || action is ComparePassword || action is PrepareAccount
        || action is IssueToken
}

/// What carrying out a local action gives. Each kind of token is verified
/// and signed with the keys of that kind and lives as long as the settings
/// say.
pub open spec fn performed(action: Action, config: Config, now: i64, event: Event) -> bool {
    match action {
        Action::VerifyToken { token, kind } => event matches Event::Verified(outcome)
            && outcome_view(outcome) == verdict(
            parse_token(token@),
            kind,
            now,
            accepted_under(token@, public_key_of(config, kind)@),
        ),
        Action::ComparePassword { password, hashed } => event matches Event::Compared(outcome)
            && comparison_view(outcome) == comparison(
            password@,
            phc_parses(hashed@),
            argon2_accepts(encode_utf8(password@), hashed@),
        ),
        Action::PrepareAccount { password } => event matches Event::Prepared {
            user_id,
            password_hash,
        } && (exists|id: u128| #[trigger] is_version_4(id) && user_id@ == uuid_text(id))
            && hashed_as(password_hash, password@),
        Action::IssueToken { subject_id, kind } => event matches Event::Issued(issued)
            && issued_afresh(
            issued,
            subject_id@,
            max_age_of(config, kind),
            kind,
            private_key_of(config, kind)@,
            now,
        ),
        _ => false,
    }
}

/// Carries out an action that needs nothing from outside, at time `now`,
/// and gives the event to tell the machine. An action that does need the
/// directory or the session store is handed back untouched.
pub fn perform(action: Action, config: &Config, now: i64) -> (done: Result<Event, Action>)
    ensures
        match done {
            Ok(event) => is_local(action) && performed(action, *config, now, event),
            Err(back) => !is_local(action) && back == action,
        },
{
    match action {
        Action::VerifyToken { token, kind } => {
            let key = match kind {
                TokenKind::Access => config.access_token_public_key.as_str(),
                TokenKind::Refresh => config.refresh_token_public_key.as_str(),
            };
            Ok(Event::Verified(verify(token.as_str(), kind, key, now)))
        },
        Action::ComparePassword { password, hashed } => {
            Ok(Event::Compared(compare(password.as_str(), hashed.as_str())))
        },
        Action::PrepareAccount { password } => {
            let password_hash = hash(password.as_str());
            let id = fresh_uuid();
            let user_id = write_uuid(id);
            assert(is_version_4(id) && user_id@ == uuid_text(id));
            Ok(Event::Prepared { user_id, password_hash })
        },
        Action::IssueToken { subject_id, kind } => {
            let (key, minutes) = match kind {
                TokenKind::Access => (
                    config.access_token_private_key.as_str(),
                    config.access_token_max_age,
                ),
                TokenKind::Refresh => (
                    config.refresh_token_private_key.as_str(),
                    config.refresh_token_max_age,
                ),
            };
            Ok(Event::Issued(issue(subject_id.as_str(), minutes, kind, key, now)))
        },
        other => Err(other),
    }
}

/// Tokens are handed out only on word that a session was recorded, and then
/// none of their sessions is left to record.
pub proof fn law_tokens_follow_recorded_sessions(state: GrantState, event: Event)
    requires
        grant_next(state, event) is Granted,
    ensures
        state is Granted || (event == Event::Stored(StoreOutcome::Done) && (state is StoreRefresh
            || state matches GrantState::StoreAccess { awaited: None, .. })),
{
}

/// Whether the issuing of tokens is one that a refresh may be in: it never
/// holds a refresh token.
pub open spec fn access_only(state: GrantState) -> bool {
    match state {
        GrantState::IssueAccess { subject_id, pair } => !pair,
        GrantState::IssueRefresh { .. } => false,
        GrantState::StoreAccess { subject_id, access, awaited } => awaited is None,
        GrantState::StoreRefresh { .. } => false,
        GrantState::Granted(g) => g.refresh is None,
        GrantState::Failed(_) => true,
    }
}

/// What holds of a refresh in every state: it holds no refresh token of
/// its own making.
pub open spec fn refresh_invariant(state: RefreshState) -> bool {
    match state {
        RefreshState::Granting(grant) => access_only(grant),
        RefreshState::Done(Ok(g)) => g.refresh is None,
        _ => true,
    }
}

/// A refresh leaves the refresh token and its session as they are: it
/// begins without a token of its own, no step gives it a refresh token, it
/// asks for no session to be deleted, and what it records is the session of
/// the access token it issued.
pub proof fn law_refresh_leaves_the_refresh_session(
    body: RefreshTokenSchema,
    state: RefreshState,
    event: Event,
)
    requires
        refresh_invariant(state),
    ensures
        refresh_invariant(refresh_begun(body)),
        refresh_invariant(refresh_next(state, event)),
        !(refresh_action(state) is DeleteSessions),
        !(refresh_action(state) matches Action::IssueToken { kind: TokenKind::Refresh, .. }),
{
}

/// Where a login ends that is told, in order, what the directory said,
/// what the comparison of the password gave, what issuing gave for each
/// token and what the store said of each session.
pub open spec fn login_run(
    body: LoginUserSchema,
    user: UserLookup,
    compared: Result<bool, String>,
    access: Result<IssuedToken, IssueError>,
    refresh: Result<IssuedToken, IssueError>,
    access_stored: StoreOutcome,
    refresh_stored: StoreOutcome,
) -> LoginState {
    login_next(
        login_next(
            login_next(
                login_next(
                    login_next(
                        login_next(LoginState::FindUser { body }, Event::User(user)),
                        Event::Compared(compared),
                    ),
                    Event::Issued(access),
                ),
                Event::Issued(refresh),
            ),
            Event::Stored(access_stored),
        ),
        Event::Stored(refresh_stored),
    )
}

/// A login hands out both tokens exactly when the account is found, the
/// password is its password, both tokens are issued and both sessions are
/// recorded. An unknown account and a wrong password are told alike; a
/// directory or a store that cannot be reached, or a signature that cannot
/// be made, is a fault of the service.
pub proof fn law_login_goes_in_order(
    body: LoginUserSchema,
    user: UserLookup,
    compared: Result<bool, String>,
    access: Result<IssuedToken, IssueError>,
    refresh: Result<IssuedToken, IssueError>,
    access_stored: StoreOutcome,
    refresh_stored: StoreOutcome,
)
    ensures
        login_run(body, user, compared, access, refresh, access_stored, refresh_stored)
            == LoginState::Done(
            match user {
                UserLookup::Absent => Err(FlowFailure::WrongCredentials),
                UserLookup::Failed => Err(FlowFailure::Infra),
                UserLookup::Found(_) => if compared != Ok::<bool, String>(true) {
                    Err(FlowFailure::WrongCredentials)
                } else {
                    match (access, refresh) {
                        (Ok(access), Ok(refresh)) => if access_stored == StoreOutcome::Done
                            && refresh_stored == StoreOutcome::Done {
                            Ok(Grant { access, refresh: Some(refresh) })
                        } else {
                            Err(FlowFailure::Infra)
                        },
                        _ => Err(FlowFailure::Signing),
                    }
                },
            },
        ),
{
}

/// Where a refresh ends that is told, in order, what verification made of
/// the refresh token, what the store and the directory said, what issuing
/// gave and what the store said of the new session.
pub open spec fn refresh_run(
    token: String,
    verified: Result<TokenClaims, TokenError>,
    session: SessionLookup,
    user: UserLookup,
    issued: Result<IssuedToken, IssueError>,
    stored: StoreOutcome,
) -> RefreshState {
    refresh_next(
        refresh_next(
            refresh_next(
                refresh_next(
                    refresh_next(RefreshState::Verify { token }, Event::Verified(verified)),
                    Event::Session(session),
                ),
                Event::User(user),
            ),
            Event::Issued(issued),
        ),
        Event::Stored(stored),
    )
}

/// A refresh hands out a new access token, and nothing else, exactly when
/// the refresh token is verified, its session is live, its account exists,
/// a token is issued and its session is recorded. A token, a session or an
/// account that fails ends the refresh with the failure that the checkpoint
/// would report for it; a store or a directory that cannot be reached, or a
/// signature that cannot be made, is a fault of the service.
pub proof fn law_refresh_goes_in_order(
    token: String,
    verified: Result<TokenClaims, TokenError>,
    session: SessionLookup,
    user: UserLookup,
    issued: Result<IssuedToken, IssueError>,
    stored: StoreOutcome,
)
    ensures
        refresh_run(token, verified, session, user, issued, stored) == RefreshState::Done(
            match verified {
                Err(e) => Err(FlowFailure::Rejected(of_token_error(e))),
                Ok(_) => match session {
                    SessionLookup::Absent => Err(FlowFailure::Rejected(AuthError::Revoked)),
                    SessionLookup::Unreachable => Err(FlowFailure::Infra),
                    SessionLookup::Found(_) => match user {
                        UserLookup::Absent => Err(
                            FlowFailure::Rejected(AuthError::UnknownPrincipal),
                        ),
                        UserLookup::Failed => Err(FlowFailure::Infra),
                        UserLookup::Found(_) => match issued {
                            Err(_) => Err(FlowFailure::Signing),
                            Ok(access) => match stored {
                                StoreOutcome::Unreachable => Err(FlowFailure::Infra),
                                StoreOutcome::Done => Ok(Grant { access, refresh: None }),
                            },
                        },
                    },
                },
            },
        ),
{
}

/// A logout asks for both sessions to be deleted in one action: the one of
/// the refresh token it verified and the one of the access token that the
/// request came with.
pub proof fn law_logout_deletes_both_sessions(
    access_session: u128,
    token: String,
    claims: TokenClaims,
)
    ensures
        logout_action(
            logout_next(
                LogoutState::Verify { access_session, token },
                Event::Verified(Ok(claims)),
            ),
        ) == (Action::DeleteSessions { refresh_session: claims.session_id, access_session }),
{
}

/// A login with an unknown email address ends as one with a wrong
/// password does.
pub proof fn law_login_failures_end_alike(
    body: LoginUserSchema,
    user: UserModel,
    password: String,
    said: Result<bool, String>,
)
    requires
        said != Ok::<bool, String>(true),
    ensures
        login_next(LoginState::FindUser { body }, Event::User(UserLookup::Absent))
            == login_next(LoginState::CheckPassword { user, password }, Event::Compared(said)),
{
}

} // verus!
