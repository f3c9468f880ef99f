use rust_flutter_application::models::user::{UserModel, UserRole};
use rust_flutter_application::utils::error::{failure_body, AuthError};
use rust_flutter_application::utils::extractor::{
    bearer_token, begin, extract_token, Authenticated, ExtractionStrategy, GateAction, GateEvent,
    GateState, RequireAuth, UserLookup,
};
use rust_flutter_application::utils::session::SessionLookup;
use rust_flutter_application::utils::token::{TokenClaims, TokenError, TokenKind};

fn user(id: &str, role: UserRole) -> UserModel {
    UserModel {
        id: id.to_string(),
        name: "Name".to_string(),
        email: "user@mail.com".to_string(),
        password: "hash".to_string(),
        role,
        photo: "default.png".to_string(),
        verified: 1,
        created_at: Some(1_700_000_000),
        updated_at: None,
    }
}

fn claims() -> TokenClaims {
    TokenClaims {
        subject_id: "u1".to_string(),
        session_id: 42,
        issued_at: 1_700_000_000,
        expires_at: 1_700_000_900,
        kind: TokenKind::Access,
    }
}

fn authenticated(role: UserRole) -> Authenticated {
    Authenticated { user: user("u1", role), access_token_uuid: 42 }
}

fn rejected(state: &GateState) -> AuthError {
    match state {
        GateState::Rejected(e) => *e,
        other => panic!("not rejected: {:?}", other),
    }
}

#[test]
fn bearer_token_is_what_follows_the_prefix() {
    assert_eq!(bearer_token(b"Bearer abc.def"), Some("abc.def".to_string()));
    assert_eq!(bearer_token(b"Bearer "), Some("".to_string()));
    assert_eq!(bearer_token(b"Bearer  x"), Some(" x".to_string()));
    assert_eq!(bearer_token("Bearer \u{e9}".as_bytes()), Some("\u{e9}".to_string()));
}

#[test]
fn truncated_or_unprefixed_header_carries_no_token() {
    let cases: [&[u8]; 10] = [
        b"",
        b"B",
        b"Bearer",
        b"Beare ",
        b"bearer abc",
        b"BEARER abc",
        b"Basic dXNlcjpwYXNz",
        b"Bearer\tabc",
        b" Bearer abc",
        b"abc",
    ];
    for header in cases {
        assert_eq!(bearer_token(header), None);
        assert_eq!(
            extract_token(ExtractionStrategy::HeaderOnly, None, Some(header)),
            Err(AuthError::Malformed)
        );
        assert_eq!(
            extract_token(ExtractionStrategy::CookieThenHeader, None, Some(header)),
            Err(AuthError::Malformed)
        );
        assert_eq!(
            extract_token(ExtractionStrategy::CookieOnly, None, Some(header)),
            Err(AuthError::Missing)
        );
    }
}

#[test]
fn header_that_is_no_text_is_malformed() {
    assert_eq!(bearer_token(b"Bearer \xff\xfe"), None);
    assert_eq!(
        extract_token(ExtractionStrategy::HeaderOnly, None, Some(b"Bearer \xc3")),
        Err(AuthError::Malformed)
    );
}

#[test]
fn request_without_a_token_is_missing() {
    for strategy in [
        ExtractionStrategy::CookieOnly,
        ExtractionStrategy::HeaderOnly,
        ExtractionStrategy::CookieThenHeader,
    ] {
        assert_eq!(extract_token(strategy, None, None), Err(AuthError::Missing));
    }
    assert_eq!(
        extract_token(ExtractionStrategy::HeaderOnly, Some("cookie"), None),
        Err(AuthError::Missing)
    );
}

#[test]
fn strategy_decides_where_the_token_is_taken_from() {
    let header: &[u8] = b"Bearer from-header";
    assert_eq!(
        extract_token(ExtractionStrategy::CookieOnly, Some("from-cookie"), Some(header)),
        Ok("from-cookie".to_string())
    );
    assert_eq!(
        extract_token(ExtractionStrategy::HeaderOnly, Some("from-cookie"), Some(header)),
        Ok("from-header".to_string())
    );
    assert_eq!(
        extract_token(ExtractionStrategy::CookieThenHeader, Some("from-cookie"), Some(header)),
        Ok("from-cookie".to_string())
    );
    assert_eq!(
        extract_token(ExtractionStrategy::CookieThenHeader, None, Some(header)),
        Ok("from-header".to_string())
    );
    // the cookie counts even where the header is broken
    assert_eq!(
        extract_token(ExtractionStrategy::CookieThenHeader, Some("from-cookie"), Some(b"x")),
        Ok("from-cookie".to_string())
    );
}

#[test]
fn begin_rejects_a_request_without_a_token() {
    let state = begin(ExtractionStrategy::CookieThenHeader, None, None, "", 0);
    assert_eq!(rejected(&state), AuthError::Missing);
    let state = begin(ExtractionStrategy::CookieThenHeader, None, Some(b"Bear"), "", 0);
    assert_eq!(rejected(&state), AuthError::Malformed);
    let state = begin(ExtractionStrategy::CookieThenHeader, Some("garbage"), None, "", 0);
    assert_eq!(rejected(&state), AuthError::Malformed);
}

#[test]
fn checkpoint_walks_its_stages_in_order() {
    let state = GateState::Start;
    assert!(matches!(state.action(), GateAction::ExtractToken));
    let state = state.step(GateEvent::Presented(Ok("token".to_string())));
    assert!(matches!(state.action(), GateAction::VerifyToken(ref t) if t == "token"));
    let state = state.step(GateEvent::Verified(Ok(claims())));
    assert!(matches!(state.action(), GateAction::LookupSession(42)));
    let state = state.step(GateEvent::Session(SessionLookup::Found("u1".to_string())));
    assert!(matches!(state.action(), GateAction::LookupUser(ref s) if s == "u1"));
    let state = state.step(GateEvent::User(UserLookup::Found(user("u1", UserRole::User))));
    assert!(matches!(state.action(), GateAction::Finish));
    match state.outcome() {
        Some(Ok(auth)) => {
            assert_eq!(auth.access_token_uuid, 42);
            assert_eq!(auth.user.id, "u1");
            assert_eq!(auth.user.role, UserRole::User);
        }
        other => panic!("not authenticated: {:?}", other),
    }
}

#[test]
fn subject_of_the_session_is_the_one_looked_up() {
    let state = GateState::SessionCheck { claims: claims() }
        .step(GateEvent::Session(SessionLookup::Found("someone-else".to_string())));
    assert!(matches!(state.action(), GateAction::LookupUser(ref s) if s == "someone-else"));
}

#[test]
fn each_stage_turns_away_on_its_failure() {
    let state = GateState::Start.step(GateEvent::Presented(Err(AuthError::Missing)));
    assert_eq!(rejected(&state), AuthError::Missing);
    let verify = || GateState::Verify { token: "t".to_string() };
    assert_eq!(
        rejected(&verify().step(GateEvent::Verified(Err(TokenError::Malformed)))),
        AuthError::Malformed
    );
    assert_eq!(
        rejected(&verify().step(GateEvent::Verified(Err(TokenError::InvalidSignature)))),
        AuthError::Malformed
    );
    assert_eq!(
        rejected(&verify().step(GateEvent::Verified(Err(TokenError::Expired)))),
        AuthError::Expired
    );
    let session = || GateState::SessionCheck { claims: claims() };
    assert_eq!(
        rejected(&session().step(GateEvent::Session(SessionLookup::Absent))),
        AuthError::Revoked
    );
    let resolution =
        || GateState::UserResolution { claims: claims(), subject_id: "u1".to_string() };
    assert_eq!(
        rejected(&resolution().step(GateEvent::User(UserLookup::Absent))),
        AuthError::UnknownPrincipal
    );
}

#[test]
fn unreachable_store_is_a_fault_of_the_service_and_never_a_pass() {
    let state = GateState::SessionCheck { claims: claims() }
        .step(GateEvent::Session(SessionLookup::Unreachable));
    assert_eq!(rejected(&state), AuthError::InfraError);
    assert_eq!(rejected(&state).status_code(), 500);
    assert!(matches!(state.action(), GateAction::Finish));
    // nothing that follows lets the request through
    let state = state.step(GateEvent::User(UserLookup::Found(user("u1", UserRole::Admin))));
    assert_eq!(rejected(&state), AuthError::InfraError);
    assert!(matches!(state.outcome(), Some(Err(AuthError::InfraError))));
}

#[test]
fn unreachable_directory_is_a_fault_of_the_service() {
    let state = GateState::UserResolution { claims: claims(), subject_id: "u1".to_string() }
        .step(GateEvent::User(UserLookup::Failed));
    assert_eq!(rejected(&state), AuthError::InfraError);
}

#[test]
fn event_out_of_turn_turns_the_request_away() {
    let found = || GateEvent::User(UserLookup::Found(user("u1", UserRole::Admin)));
    assert_eq!(rejected(&GateState::Start.step(found())), AuthError::InfraError);
    assert_eq!(
        rejected(&GateState::Verify { token: "t".to_string() }.step(found())),
        AuthError::InfraError
    );
    assert_eq!(
        rejected(&GateState::SessionCheck { claims: claims() }.step(found())),
        AuthError::InfraError
    );
    assert_eq!(
        rejected(
            &GateState::UserResolution { claims: claims(), subject_id: "u1".to_string() }
                .step(GateEvent::Session(SessionLookup::Found("u1".to_string())))
        ),
        AuthError::InfraError
    );
}

#[test]
fn settled_request_stays_settled() {
    let state = GateState::Authenticated(authenticated(UserRole::User))
        .step(GateEvent::Session(SessionLookup::Absent));
    assert!(matches!(state, GateState::Authenticated(_)));
    let state = GateState::Rejected(AuthError::Revoked)
        .step(GateEvent::User(UserLookup::Found(user("u1", UserRole::Admin))));
    assert_eq!(rejected(&state), AuthError::Revoked);
}

#[test]
fn unsettled_request_has_no_outcome() {
    assert!(GateState::Start.outcome().is_none());
    assert!(GateState::SessionCheck { claims: claims() }.outcome().is_none());
}

#[test]
fn guard_admits_exactly_the_listed_roles() {
    let all = [UserRole::Admin, UserRole::Moderator, UserRole::User];
    let lists: [Vec<UserRole>; 5] = [
        vec![],
        vec![UserRole::Admin],
        vec![UserRole::Moderator],
        vec![UserRole::User, UserRole::Admin],
        vec![UserRole::User, UserRole::Moderator, UserRole::Admin, UserRole::User],
    ];
    for list in lists {
        let guard = RequireAuth::allowed_roles(list.clone()).new_transform();
        for role in all {
            assert_eq!(guard.admits(role), list.contains(&role));
            let outcome = guard.call(Ok(authenticated(role)));
            if list.contains(&role) {
                assert_eq!(outcome.unwrap().user.role, role);
            } else {
                assert_eq!(outcome.unwrap_err(), AuthError::Forbidden);
            }
        }
    }
}

#[test]
fn admin_only_route_rejects_a_moderator() {
    let guard = RequireAuth::allowed_roles(vec![UserRole::Admin]).new_transform();
    assert!(!guard.admits(UserRole::Moderator));
    let outcome = guard.call(Ok(authenticated(UserRole::Moderator)));
    assert_eq!(outcome.unwrap_err(), AuthError::Forbidden);
    assert_eq!(AuthError::Forbidden.status_code(), 403);
}

#[test]
fn moderator_only_route_rejects_an_admin() {
    let guard = RequireAuth::allowed_roles(vec![UserRole::Moderator]).new_transform();
    assert!(!guard.admits(UserRole::Admin));
    assert_eq!(
        guard.call(Ok(authenticated(UserRole::Admin))).unwrap_err(),
        AuthError::Forbidden
    );
}

#[test]
fn guard_keeps_the_list_it_was_given() {
    let require = RequireAuth::allowed_roles(vec![UserRole::User, UserRole::Admin]);
    assert_eq!(*require.allowed_roles, vec![UserRole::User, UserRole::Admin]);
}

#[test]
fn guard_passes_a_rejection_on() {
    let guard = RequireAuth::allowed_roles(vec![UserRole::Admin]).new_transform();
    for error in [
        AuthError::Missing,
        AuthError::Malformed,
        AuthError::Expired,
        AuthError::Revoked,
        AuthError::UnknownPrincipal,
        AuthError::InfraError,
    ] {
        assert_eq!(guard.call(Err(error)).unwrap_err(), error);
    }
}

#[test]
fn every_failure_has_its_status() {
    assert_eq!(AuthError::Missing.status_code(), 401);
    assert_eq!(AuthError::Malformed.status_code(), 401);
    assert_eq!(AuthError::Expired.status_code(), 401);
    assert_eq!(AuthError::Revoked.status_code(), 401);
    assert_eq!(AuthError::UnknownPrincipal.status_code(), 401);
    assert_eq!(AuthError::Forbidden.status_code(), 403);
    assert_eq!(AuthError::InfraError.status_code(), 500);
}

#[test]
fn failures_of_one_status_read_alike() {
    let unauthorized = [
        AuthError::Missing,
        AuthError::Malformed,
        AuthError::Expired,
        AuthError::Revoked,
        AuthError::UnknownPrincipal,
    ];
    for error in unauthorized {
        let body = error.response();
        assert_eq!(body.status, "fail");
        assert_eq!(body.message, "You are not logged in or your session is no longer valid");
    }
    let body = AuthError::Forbidden.response();
    assert_eq!(body.status, "fail");
    assert_eq!(body.message, "You are not allowed to perform this action");
    let body = AuthError::InfraError.response();
    assert_eq!(body.status, "error");
    assert_eq!(body.message, "The request could not be completed");
}

#[test]
fn failure_body_goes_by_the_status() {
    assert_eq!(failure_body(401).status, "fail");
    assert_eq!(failure_body(499).status, "fail");
    assert_eq!(failure_body(500).status, "error");
    assert_eq!(failure_body(502).status, "error");
    assert_eq!(failure_body(502).message, "The request could not be completed");
    assert_eq!(failure_body(400).message, "The request could not be completed");
}
