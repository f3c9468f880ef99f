//! The checkpoint that every protected request passes, and the guard that holds
//! each route to its roles.
//!
//! The checkpoint is a state machine. What it needs from outside, the look into
//! the session store and the look into the directory, it asks for as an
//! action and takes back as an event, so that whoever drives it may wait for
//! either without holding up anything else.

use std::rc::Rc;
use vstd::prelude::*;
use vstd::string::*;
use vstd::utf8::*;

use crate::models::user::{Principal, UserModel, UserRole};
use crate::utils::codec::text_of;
use crate::utils::error::{of_token_error, AuthError};
use crate::utils::session::SessionLookup;
use crate::utils::token::{
    accepted_under, parse_token, verdict, verify, TokenClaims, TokenError, TokenKind,
};

verus! {

/// Where the checkpoint looks for the bearer token.
#[derive(Clone, Copy, Debug, PartialEq, Eq, Structural)]
pub enum ExtractionStrategy {
    /// Only the `access_token` cookie counts.
    CookieOnly,
    /// Only the `Authorization` header counts.
    HeaderOnly,
    /// The cookie counts first, the header where there is no cookie.
    CookieThenHeader,
}

/// The name of the cookie that carries the access token.
pub const ACCESS_COOKIE: &'static str = "access_token";

/// The name of the cookie that carries the refresh token.
pub const REFRESH_COOKIE: &'static str = "refresh_token";

/// The length of the prefix `Bearer ` of an `Authorization` header.
pub const BEARER_PREFIX_LEN: usize = 7;

/// The bytes of `Bearer `.
pub open spec fn bearer_prefix() -> Seq<u8> {
    seq![66u8, 101u8, 97u8, 114u8, 101u8, 114u8, 32u8]
}

/// The token that an `Authorization` header carries: what follows the
/// prefix `Bearer `, where the header begins with it and the rest is text.
pub open spec fn bearer_of(header: Seq<u8>) -> Option<Seq<char>> {
    if header.len() >= BEARER_PREFIX_LEN && header.subrange(0, BEARER_PREFIX_LEN as int)
        == bearer_prefix() && valid_utf8(
        header.subrange(BEARER_PREFIX_LEN as int, header.len() as int),
    ) {
        Some(decode_utf8(header.subrange(BEARER_PREFIX_LEN as int, header.len() as int)))
    } else {
        None
    }
}

/// What the header alone gives: no header is no token, a header that
/// carries none is malformed.
pub open spec fn from_header(authorization: Option<Seq<u8>>) -> Result<Seq<char>, AuthError> {
    match authorization {
        None => Err(AuthError::Missing),
        Some(header) => match bearer_of(header) {
            Some(token) => Ok(token),
            None => Err(AuthError::Malformed),
        },
    }
}

/// The token that a request presents under a strategy.
pub open spec fn extracted(
    strategy: ExtractionStrategy,
    cookie: Option<Seq<char>>,
    authorization: Option<Seq<u8>>,
) -> Result<Seq<char>, AuthError> {
    match strategy {
        ExtractionStrategy::CookieOnly => match cookie {
            Some(token) => Ok(token),
            None => Err(AuthError::Missing),
        },
        ExtractionStrategy::HeaderOnly => from_header(authorization),
        ExtractionStrategy::CookieThenHeader => match cookie {
            Some(token) => Ok(token),
            None => from_header(authorization),
        },
    }
}

/// The view of an optional text.
pub open spec fn text_view(text: Option<&str>) -> Option<Seq<char>> {
    match text {
        Some(t) => Some(t@),
        None => None,
    }
}

/// The view of optional bytes.
pub open spec fn bytes_view(bytes: Option<&[u8]>) -> Option<Seq<u8>> {
    match bytes {
        Some(b) => Some(b@),
        None => None,
    }
}

/// The view of an extraction's outcome.
pub open spec fn extraction_view(outcome: Result<String, AuthError>) -> Result<
    Seq<char>,
    AuthError,
> {
    match outcome {
        Ok(token) => Ok(token@),
        Err(e) => Err(e),
    }
}

/// Reads the token out of the value of an `Authorization` header.
pub fn bearer_token(header: &[u8]) -> (token: Option<String>)
    ensures
        match token {
            Some(t) => bearer_of(header@) == Some(t@),
            None => bearer_of(header@) is None,
        },
{
    if header.len() < BEARER_PREFIX_LEN {
        return None;
    }
    let prefixed = header[0] == 66 && header[1] == 101 && header[2] == 97 && header[3] == 114
        && header[4] == 101 && header[5] == 114 && header[6] == 32;
    proof {
        let head = header@.subrange(0, BEARER_PREFIX_LEN as int);
        if prefixed {
            assert(head =~= bearer_prefix());
        } else if head == bearer_prefix() {
            assert(head[0] == 66 && head[1] == 101 && head[2] == 97 && head[3] == 114 && head[4]
                == 101 && head[5] == 114 && head[6] == 32);
        }
    }
    if !prefixed {
        return None;
    }
    let mut rest: Vec<u8> = Vec::new();
    let mut i: usize = BEARER_PREFIX_LEN;
    while i < header.len()
        invariant
            BEARER_PREFIX_LEN <= i <= header.len(),
            rest@ == header@.subrange(BEARER_PREFIX_LEN as int, i as int),
        decreases header.len() - i,
    {
        rest.push(header[i]);
        assert(rest@ =~= header@.subrange(BEARER_PREFIX_LEN as int, i + 1));
        i = i + 1;
    }
    text_of(rest)
}

/// Finds the token that a request presents: in the cookie, in the header,
/// or in the cookie and failing that the header.
pub fn extract_token(
    strategy: ExtractionStrategy,
    cookie: Option<&str>,
    authorization: Option<&[u8]>,
) -> (token: Result<String, AuthError>)
    ensures
        extraction_view(token) == extracted(
            strategy,
            text_view(cookie),
            bytes_view(authorization),
        ),
{
    let use_cookie = match strategy {
        ExtractionStrategy::HeaderOnly => false,
        _ => true,
    };
    let use_header = match strategy {
        ExtractionStrategy::CookieOnly => false,
        _ => true,
    };
    if use_cookie {
        if let Some(value) = cookie {
            return Ok(String::from_str(value));
        }
    }
    if use_header {
        if let Some(header) = authorization {
            return match bearer_token(header) {
                Some(token) => Ok(token),
                None => Err(AuthError::Malformed),
            };
        }
    }
    Err(AuthError::Missing)
}

/// A header that is shorter than the prefix `Bearer `, or does not begin
/// with it, never yields a token: the request counts as one without a token
/// or with a malformed one.
pub proof fn law_truncated_header_yields_no_token(
    strategy: ExtractionStrategy,
    header: Seq<u8>,
)
    requires
        header.len() < BEARER_PREFIX_LEN || header.subrange(0, BEARER_PREFIX_LEN as int)
            != bearer_prefix(),
    ensures
        extracted(strategy, None, Some(header)) == Err::<Seq<char>, AuthError>(AuthError::Missing)
            || extracted(strategy, None, Some(header)) == Err::<Seq<char>, AuthError>(
            AuthError::Malformed,
        ),
        strategy != ExtractionStrategy::CookieOnly ==> extracted(strategy, None, Some(header))
            == Err::<Seq<char>, AuthError>(AuthError::Malformed),
{
}

/// What a look into the directory gives: the account, word that there is
/// none, or word that the directory could not be asked.
#[derive(Debug)]
pub enum UserLookup {
    Found(UserModel),
    Absent,
    Failed,
}

/// A request that has passed the checkpoint: the account behind it and the
/// session of its access token.
#[derive(Debug)]
pub struct Authenticated {
    pub user: UserModel,
    pub access_token_uuid: u128,
}

impl Authenticated {
    /// The principal that the request acts as.
    pub fn principal(&self) -> (p: Principal)
        ensures
            p.id == self.user.id,
            p.role == self.user.role,
    {
        self.user.principal()
    }
}

/// Where a request stands at the checkpoint.
#[derive(Debug)]
pub enum GateState {
    /// Nothing has been looked at yet.
    Start,
    /// A token was presented and awaits verification.
    Verify { token: String },
    /// The token is sound; its session awaits the look into the store.
    SessionCheck { claims: TokenClaims },
    /// The session is live; its subject awaits the look into the directory.
    UserResolution { claims: TokenClaims, subject_id: String },
    /// The request is let through.
    Authenticated(Authenticated),
    /// The request is turned away.
    Rejected(AuthError),
}

/// What the checkpoint is told.
#[derive(Debug)]
pub enum GateEvent {
    /// What the request presented as its token.
    Presented(Result<String, AuthError>),
    /// What verification made of the token.
    Verified(Result<TokenClaims, TokenError>),
    /// What the session store said.
    Session(SessionLookup),
    /// What the directory said.
    User(UserLookup),
}

/// What the checkpoint asks for next.
#[derive(Debug)]
pub enum GateAction {
    /// Find the token in the request.
    ExtractToken,
    /// Verify this token as an access token.
    VerifyToken(String),
    /// Look this session up in the store.
    LookupSession(u128),
    /// Look this subject up in the directory.
    LookupUser(String),
    /// Nothing: the request is settled.
    Finish,
}

/// The state that follows a state and an event. Each step either moves one
/// stage on or turns the request away; a settled request stays settled, and
/// an event that the state does not await turns the request away as a fault
/// of the service.
pub open spec fn gate_next(state: GateState, event: GateEvent) -> GateState {
    match state {
        GateState::Authenticated(a) => GateState::Authenticated(a),
        GateState::Rejected(e) => GateState::Rejected(e),
        GateState::Start => match event {
            GateEvent::Presented(Ok(token)) => GateState::Verify { token },
            GateEvent::Presented(Err(e)) => GateState::Rejected(e),
            _ => GateState::Rejected(AuthError::InfraError),
        },
        GateState::Verify { token } => match event {
            GateEvent::Verified(Ok(claims)) => GateState::SessionCheck { claims },
            GateEvent::Verified(Err(e)) => GateState::Rejected(of_token_error(e)),
            _ => GateState::Rejected(AuthError::InfraError),
        },
        GateState::SessionCheck { claims } => match event {
            GateEvent::Session(SessionLookup::Found(subject_id)) => GateState::UserResolution {
                claims,
                subject_id,
            },
            GateEvent::Session(SessionLookup::Absent) => GateState::Rejected(AuthError::Revoked),
            _ => GateState::Rejected(AuthError::InfraError),
        },
        GateState::UserResolution { claims, subject_id } => match event {
            GateEvent::User(UserLookup::Found(user)) => GateState::Authenticated(
                Authenticated { user, access_token_uuid: claims.session_id },
            ),
            GateEvent::User(UserLookup::Absent) => GateState::Rejected(
                AuthError::UnknownPrincipal,
            ),
            _ => GateState::Rejected(AuthError::InfraError),
        },
    }
}

/// What a state asks for.
pub open spec fn gate_action(state: GateState) -> GateAction {
    match state {
        GateState::Start => GateAction::ExtractToken,
        GateState::Verify { token } => GateAction::VerifyToken(token),
        GateState::SessionCheck { claims } => GateAction::LookupSession(claims.session_id),
        GateState::UserResolution { claims, subject_id } => GateAction::LookupUser(subject_id),
        GateState::Authenticated(_) => GateAction::Finish,
        GateState::Rejected(_) => GateAction::Finish,
    }
}

impl GateState {
    /// Whether the request is settled.
    pub open spec fn settled(self) -> bool {
        self is Authenticated || self is Rejected
    }

    /// Takes one step.
    pub fn step(self, event: GateEvent) -> (next: GateState)
        ensures
            next == gate_next(self, event),
    {
        match self {
            GateState::Authenticated(a) => GateState::Authenticated(a),
            GateState::Rejected(e) => GateState::Rejected(e),
            GateState::Start => match event {
                GateEvent::Presented(Ok(token)) => GateState::Verify { token },
                GateEvent::Presented(Err(e)) => GateState::Rejected(e),
                _ => GateState::Rejected(AuthError::InfraError),
            },
            GateState::Verify { token } => match event {
                GateEvent::Verified(Ok(claims)) => GateState::SessionCheck { claims },
                GateEvent::Verified(Err(e)) => GateState::Rejected(AuthError::from_token_error(e)),
                _ => GateState::Rejected(AuthError::InfraError),
            },
            GateState::SessionCheck { claims } => match event {
                GateEvent::Session(SessionLookup::Found(subject_id)) => GateState::UserResolution {
                    claims,
                    subject_id,
                },
                GateEvent::Session(SessionLookup::Absent) => GateState::Rejected(
                    AuthError::Revoked,
                ),
                _ => GateState::Rejected(AuthError::InfraError),
            },
            GateState::UserResolution { claims, subject_id } => match event {
                GateEvent::User(UserLookup::Found(user)) => GateState::Authenticated(
                    Authenticated { user, access_token_uuid: claims.session_id },
                ),
                GateEvent::User(UserLookup::Absent) => GateState::Rejected(
                    AuthError::UnknownPrincipal,
                ),
                _ => GateState::Rejected(AuthError::InfraError),
            },
        }
    }

    /// What the checkpoint asks for in this state.
    pub fn action(&self) -> (action: GateAction)
        ensures
            action == gate_action(*self),
    {
        match self {
            GateState::Start => GateAction::ExtractToken,
            GateState::Verify { token } => GateAction::VerifyToken(token.clone()),
            GateState::SessionCheck { claims } => GateAction::LookupSession(claims.session_id),
            GateState::UserResolution { claims, subject_id } => GateAction::LookupUser(
                subject_id.clone(),
            ),
            GateState::Authenticated(_) => GateAction::Finish,
            GateState::Rejected(_) => GateAction::Finish,
        }
    }

    /// How the request was settled, where it is.
    pub fn outcome(self) -> (outcome: Option<Result<Authenticated, AuthError>>)
        ensures
            outcome == match self {
                GateState::Authenticated(a) => Some(Ok::<Authenticated, AuthError>(a)),
                GateState::Rejected(e) => Some(Err::<Authenticated, AuthError>(e)),
                _ => None,
            },
    {
        match self {
            GateState::Authenticated(a) => Some(Ok(a)),
            GateState::Rejected(e) => Some(Err(e)),
            _ => None,
        }
    }
}

/// The first two stages of the checkpoint, which need nothing from outside: the
/// token is found in the request and verified as an access token. The
/// request is then turned away, or its session awaits the look into the
/// store.
pub fn begin(
    strategy: ExtractionStrategy,
    cookie: Option<&str>,
    authorization: Option<&[u8]>,
    public_key: &str,
    now: i64,
) -> (state: GateState)
    ensures
        match extracted(strategy, text_view(cookie), bytes_view(authorization)) {
            Err(e) => state == GateState::Rejected(e),
            Ok(token) => match verdict(
                parse_token(token),
                TokenKind::Access,
                now,
                accepted_under(token, public_key@),
            ) {
                Ok(claims) => state matches GateState::SessionCheck { claims: c } && c@ == claims,
                Err(e) => state == GateState::Rejected(of_token_error(e)),
            },
        },
{
    let presented = extract_token(strategy, cookie, authorization);
    match GateState::Start.step(GateEvent::Presented(presented)) {
        GateState::Verify { token } => {
            let verified = verify(token.as_str(), TokenKind::Access, public_key, now);
            GateState::Verify { token }.step(GateEvent::Verified(verified))
        },
        other => other,
    }
}

/// Where a request ends that is told, in order, what it presented, what
/// verification made of it, what the store said and what the directory
/// said.
pub open spec fn gate_run(
    presented: Result<String, AuthError>,
    verified: Result<TokenClaims, TokenError>,
    session: SessionLookup,
    user: UserLookup,
) -> GateState {
    gate_next(
        gate_next(
            gate_next(
                gate_next(GateState::Start, GateEvent::Presented(presented)),
                GateEvent::Verified(verified),
            ),
            GateEvent::Session(session),
        ),
        GateEvent::User(user),
    )
}

/// The stages come one after the other and the first that fails settles
/// the request: a later stage cannot mend an earlier one, and the request is
/// let through only if all four succeed, as the account that the directory
/// found with the session that the token states.
pub proof fn law_first_failure_settles(
    presented: Result<String, AuthError>,
    verified: Result<TokenClaims, TokenError>,
    session: SessionLookup,
    user: UserLookup,
)
    ensures
        gate_run(presented, verified, session, user) == match presented {
            Err(e) => GateState::Rejected(e),
            Ok(_) => match verified {
                Err(e) => GateState::Rejected(of_token_error(e)),
                Ok(claims) => match session {
                    SessionLookup::Absent => GateState::Rejected(AuthError::Revoked),
                    SessionLookup::Unreachable => GateState::Rejected(AuthError::InfraError),
                    SessionLookup::Found(_) => match user {
                        UserLookup::Found(account) => GateState::Authenticated(
                            Authenticated { user: account, access_token_uuid: claims.session_id },
                        ),
                        UserLookup::Absent => GateState::Rejected(AuthError::UnknownPrincipal),
                        UserLookup::Failed => GateState::Rejected(AuthError::InfraError),
                    },
                },
            },
        },
{
}

/// A request is let through only by the directory's word for the subject of
/// a live session: no other step ends in an authenticated request.
pub proof fn law_only_a_resolved_user_passes(state: GateState, event: GateEvent)
    requires
        gate_next(state, event) is Authenticated,
    ensures
        state is Authenticated || (state is UserResolution && event matches GateEvent::User(
            UserLookup::Found(_),
        )),
{
}

/// A store or a directory that cannot be asked never lets a request
/// through: the request is turned away as a fault of the service.
pub proof fn law_unreachable_fails_closed(state: GateState)
    requires
        !state.settled(),
    ensures
        gate_next(state, GateEvent::Session(SessionLookup::Unreachable)) == GateState::Rejected(
            AuthError::InfraError,
        ),
        gate_next(state, GateEvent::User(UserLookup::Failed)) == GateState::Rejected(
            AuthError::InfraError,
        ),
{
}

/// A session that the store does not hold turns the request away as
/// revoked, whatever the token states.
pub proof fn law_absent_session_is_revoked(claims: TokenClaims)
    ensures
        gate_next(
            GateState::SessionCheck { claims },
            GateEvent::Session(SessionLookup::Absent),
        ) == GateState::Rejected(AuthError::Revoked),
{
}

/// The roles that a route lets through, fixed when the route is set up.
#[derive(Debug)]
pub struct RequireAuth {
    pub allowed_roles: Rc<Vec<UserRole>>,
}

/// The guard of one route.
#[derive(Debug)]
pub struct AuthMiddleware {
    allowed_roles: Rc<Vec<UserRole>>,
}

/// What the guard makes of a settled request: a request that passed the
/// checkpoint passes the guard exactly when its role is on the list.
pub open spec fn guarded(roles: Seq<UserRole>, outcome: Result<Authenticated, AuthError>)
    -> Result<Authenticated, AuthError> {
    match outcome {
        Err(e) => Err(e),
        Ok(a) => if roles.contains(a.user.role) {
            Ok(a)
        } else {
            Err(AuthError::Forbidden)
        },
    }
}

impl RequireAuth {
    /// Fixes the roles that a route lets through.
    pub fn allowed_roles(allowed_roles: Vec<UserRole>) -> (guard: Self)
        ensures
            guard.allowed_roles@ == allowed_roles@,
    {
        RequireAuth { allowed_roles: Rc::new(allowed_roles) }
    }

    /// The guard for a route with these roles.
    pub fn new_transform(&self) -> (guard: AuthMiddleware)
        ensures
            guard.roles() == self.allowed_roles@,
    {
        AuthMiddleware { allowed_roles: self.allowed_roles.clone() }
    }
}

impl AuthMiddleware {
    /// The roles that this guard lets through.
    pub closed spec fn roles(&self) -> Seq<UserRole> {
        self.allowed_roles@
    }

    /// Whether a role is on the list. No role stands for another.
    pub fn admits(&self, role: UserRole) -> (admitted: bool)
        ensures
            admitted == self.roles().contains(role),
    {
        let mut i: usize = 0;
        while i < self.allowed_roles.len()
            invariant
                i <= self.allowed_roles.len(),
                forall|k: int| 0 <= k < i ==> self.allowed_roles@[k] != role,
            decreases self.allowed_roles.len() - i,
        {
            if self.allowed_roles[i] == role {
                return true;
            }
            i = i + 1;
        }
        false
    }

    /// Lets a settled request through or turns it away.
    pub fn call(&self, outcome: Result<Authenticated, AuthError>) -> (guarded_outcome: Result<
        Authenticated,
        AuthError,
    >)
        ensures
            guarded_outcome == guarded(self.roles(), outcome),
    {
        match outcome {
            Err(e) => Err(e),
            Ok(a) => {
                if self.admits(a.user.role) {
                    Ok(a)
                } else {
                    Err(AuthError::Forbidden)
                }
            },
        }
    }
}

/// The guard lets a principal through exactly when its role is on the
/// route's list, and turns every other one away as forbidden.
pub proof fn law_guard_is_membership(roles: Seq<UserRole>, a: Authenticated)
    ensures
        guarded(roles, Ok(a)) is Ok <==> roles.contains(a.user.role),
        !roles.contains(a.user.role) ==> guarded(roles, Ok(a)) == Err::<Authenticated, AuthError>(
            AuthError::Forbidden,
        ),
        roles.contains(a.user.role) ==> guarded(roles, Ok(a)) == Ok::<Authenticated, AuthError>(a),
{
}

} // verus!
