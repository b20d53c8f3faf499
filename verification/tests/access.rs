use auth_core::auth::flow::{Effect, Event, Moment, Reply};
use auth_core::auth::model::AuthProvider;
use auth_core::auth::service::AuthService;
use auth_core::config::AppConfig;
use auth_core::middleware::auth::{
    auth, authorize, bearer_token, has_role, load_subject, role_check, session_token, AuthState,
    JWTAuthMiddeware,
};
use auth_core::users::model::{User, UserRole};

const NOW: i64 = 1_700_000_000;

fn config() -> AppConfig {
    AppConfig { jwt_secret: "the-secret".to_string(), jwt_maxage: 60, port: 8000 }
}

fn moment(now: i64) -> Moment {
    Moment { now, salt: "c2FsdHNhbHQ".to_string(), token: "t".to_string() }
}

fn user(role: UserRole) -> User {
    User {
        id: "id-1".to_string(),
        name: "Ann".to_string(),
        email: "ann@x.com".to_string(),
        password: "hash".to_string(),
        role,
        verified: true,
        verification_token: None,
        token_expires_at: None,
        provider: AuthProvider::Local,
        created_at: Some(NOW),
        updated_at: Some(NOW),
    }
}

fn failure_of(effect: &Effect) -> (u16, String) {
    match effect {
        Effect::Fail { error, .. } => (error.status, error.message.clone()),
        other => panic!("not a failure: {other:?}"),
    }
}

#[test]
fn role_among_the_required_roles_passes() {
    assert!(authorize(&user(UserRole::Admin), &vec![UserRole::Admin]).is_ok());
    assert!(authorize(&user(UserRole::User), &vec![UserRole::Admin, UserRole::User]).is_ok());
    assert!(has_role(UserRole::Guest, &vec![UserRole::User, UserRole::Guest]));
}

#[test]
fn role_not_required_is_forbidden() {
    let e = authorize(&user(UserRole::User), &vec![UserRole::Admin]).unwrap_err();
    assert_eq!(e.status, 403);
    assert_eq!(e.message, "You do not have permission to access this resource");
    assert!(!has_role(UserRole::Guest, &vec![UserRole::Admin, UserRole::User]));
}

#[test]
fn nobody_passes_when_no_role_is_required() {
    for role in [UserRole::Admin, UserRole::User, UserRole::Guest] {
        assert_eq!(authorize(&user(role), &vec![]).unwrap_err().status, 403);
    }
}

#[test]
fn request_without_identity_is_not_authenticated() {
    let e = role_check(None, &vec![UserRole::Admin, UserRole::User, UserRole::Guest])
        .unwrap_err();
    assert_eq!(e.status, 401);
    assert_eq!(e.message, "User authentication required");
}

#[test]
fn request_with_identity_is_judged_by_its_role() {
    let caller = JWTAuthMiddeware { user: user(UserRole::User) };
    assert!(role_check(Some(&caller), &vec![UserRole::User]).is_ok());
    assert_eq!(role_check(Some(&caller), &vec![UserRole::Admin]).unwrap_err().status, 403);
}

#[test]
fn request_without_token_is_not_authenticated() {
    let (state, effect) =
        auth(AuthState::Received { token: None }, Event::Start, &config(), &moment(NOW));
    assert!(matches!(state, AuthState::Finished));
    assert_eq!(failure_of(&effect), (401, "Authorization token not provided".to_string()));
}

#[test]
fn valid_token_leads_to_the_user_it_names() {
    let token = AuthService::create_token_at("id-1", b"the-secret", 60, NOW).unwrap();
    let (state, effect) =
        auth(AuthState::Received { token: Some(token) }, Event::Start, &config(), &moment(NOW + 1));
    assert!(matches!(state, AuthState::Loading));
    assert!(matches!(effect, Effect::FindUserById { ref id } if id == "id-1"));
    let found = Event::UserFound { found: Some(user(UserRole::Admin)) };
    let (state, effect) = auth(state, found, &config(), &moment(NOW + 1));
    assert!(matches!(state, AuthState::Finished));
    match effect {
        Effect::Reply { reply: Reply::Identity { user } } => {
            assert_eq!(user.id, "id-1");
            assert_eq!(user.role, UserRole::Admin);
        }
        other => panic!("no identity: {other:?}"),
    }
}

#[test]
fn bad_and_expired_tokens_are_answered_alike() {
    let token = AuthService::create_token_at("id-1", b"the-secret", 60, NOW).unwrap();
    let expired = auth(
        AuthState::Received { token: Some(token.clone()) },
        Event::Start,
        &config(),
        &moment(NOW + 3600),
    );
    let forged = auth(
        AuthState::Received { token: Some(format!("{token}x")) },
        Event::Start,
        &config(),
        &moment(NOW),
    );
    let garbage = auth(
        AuthState::Received { token: Some("garbage".to_string()) },
        Event::Start,
        &config(),
        &moment(NOW),
    );
    for (state, effect) in [expired, forged, garbage] {
        assert!(matches!(state, AuthState::Finished));
        assert_eq!(failure_of(&effect), (401, "Token is invalid or malformed".to_string()));
    }
}

#[test]
fn token_of_a_vanished_user_is_not_authenticated() {
    let (state, effect) =
        auth(AuthState::Loading, Event::UserFound { found: None }, &config(), &moment(NOW));
    assert!(matches!(state, AuthState::Finished));
    assert_eq!(failure_of(&effect), (401, "User no longer exists".to_string()));
}

#[test]
fn store_failure_during_authentication_is_a_server_error() {
    let event = Event::StoreFailed { reason: "pool timed out".to_string() };
    let (_, effect) = auth(AuthState::Loading, event, &config(), &moment(NOW));
    assert_eq!(failure_of(&effect), (500, "pool timed out".to_string()));
    let (_, effect) = auth(AuthState::Finished, Event::Start, &config(), &moment(NOW));
    assert_eq!(failure_of(&effect), (500, "Internal server error".to_string()));
}

#[test]
fn verified_subject_is_looked_up() {
    let (state, effect) = load_subject(Ok("id-7".to_string()));
    assert!(matches!(state, AuthState::Loading));
    assert!(matches!(effect, Effect::FindUserById { ref id } if id == "id-7"));
}

#[test]
fn token_is_read_out_of_the_authorization_header() {
    assert_eq!(bearer_token("Bearer abc.def.ghi"), Some("abc.def.ghi".to_string()));
    assert_eq!(bearer_token("Bearer "), Some(String::new()));
    assert_eq!(bearer_token("Bearer"), None);
    assert_eq!(bearer_token("bearer abc"), None);
    assert_eq!(bearer_token("Basic dXNlcjpwYXNz"), None);
    assert_eq!(bearer_token(""), None);
    assert_eq!(bearer_token("Bearer \u{e9}t\u{e9}"), Some("\u{e9}t\u{e9}".to_string()));
}

#[test]
fn cookie_goes_before_the_authorization_header() {
    let some = |s: &str| Some(s.to_string());
    assert_eq!(session_token(some("from-cookie"), some("Bearer from-header")), some("from-cookie"));
    assert_eq!(session_token(None, some("Bearer from-header")), some("from-header"));
    assert_eq!(session_token(None, some("from-header")), None);
    assert_eq!(session_token(some("from-cookie"), None), some("from-cookie"));
    assert_eq!(session_token(None, None), None);
}
