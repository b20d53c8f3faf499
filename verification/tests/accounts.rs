use auth_core::auth::flow::{Effect, Event, Moment, Reply};
use auth_core::auth::handlers::{
    register_insert, reset_claim, reset_password, RegisterState, ResetPasswordState,
};
use auth_core::auth::verification::TokenPurpose;
use auth_core::auth::model::AuthProvider;
use auth_core::auth::oauth::google_oauth::GoogleOAuth;
use auth_core::config::OAuthConfig;
use auth_core::errors::ErrorMessage;
use auth_core::users::handlers::{account_reply, create_user};
use auth_core::users::model::{User, UserRole};

const NOW: i64 = 1_700_000_000;

fn moment() -> Moment {
    Moment { now: NOW, salt: "c29tZXNhbHRzb21lc2FsdA".to_string(), token: "fresh".to_string() }
}

fn stored_user(created_at: Option<i64>) -> User {
    User {
        id: "id-1".to_string(),
        name: "Ann".to_string(),
        email: "ann@x.com".to_string(),
        password: "hash".to_string(),
        role: UserRole::Guest,
        verified: false,
        verification_token: Some("fresh".to_string()),
        token_expires_at: Some(NOW + 86400),
        provider: AuthProvider::Local,
        created_at,
        updated_at: created_at,
    }
}

fn received() -> RegisterState {
    RegisterState::Received {
        name: "Ann".to_string(),
        email: "ann@x.com".to_string(),
        password: "secret1".to_string(),
        password_confirm: "secret1".to_string(),
    }
}

#[test]
fn account_is_stored_with_hash_token_and_expiry() {
    let (state, effect) = register_insert(
        "Ann".to_string(),
        "ann@x.com".to_string(),
        Ok("the-hash".to_string()),
        &moment(),
    );
    assert!(matches!(state, RegisterState::Saving { ref token } if token == "fresh"));
    match effect {
        Effect::InsertUser { user } => {
            assert_eq!(user.name, "Ann");
            assert_eq!(user.email, "ann@x.com");
            assert_eq!(user.password_hash, "the-hash");
            assert_eq!(user.verification_token, "fresh");
            assert_eq!(user.token_expires_at, NOW + 86400);
        }
        other => panic!("no insert: {other:?}"),
    }
}

#[test]
fn failed_hashing_ends_the_registration() {
    let (state, effect) = register_insert(
        "Ann".to_string(),
        "ann@x.com".to_string(),
        Err(ErrorMessage::HashingError),
        &moment(),
    );
    assert!(matches!(state, RegisterState::Finished));
    match effect {
        Effect::Fail { error, .. } => {
            assert_eq!(error.status, 500);
            assert_eq!(error.message, "An error occurred while hashing the password");
        }
        other => panic!("no failure: {other:?}"),
    }
}

#[test]
fn reset_consumes_the_token_before_it_stores_the_hash() {
    let (state, effect) =
        reset_claim("reset-1".to_string(), "id-1".to_string(), Ok("new-hash".to_string()));
    assert!(matches!(
        state,
        ResetPasswordState::Consuming { ref user_id, ref password_hash }
            if user_id == "id-1" && password_hash == "new-hash"
    ));
    assert!(matches!(
        effect,
        Effect::ConsumeToken { ref token, purpose: TokenPurpose::PasswordReset }
            if token == "reset-1"
    ));
    let (state, effect) = reset_password(state, Event::RowsAffected { count: 1 }, &moment());
    assert!(matches!(state, ResetPasswordState::Updating));
    match effect {
        Effect::UpdatePassword { user_id, password_hash } => {
            assert_eq!(user_id, "id-1");
            assert_eq!(password_hash, "new-hash");
        }
        other => panic!("no update: {other:?}"),
    }
    let stored = Event::UserStored { user: stored_user(Some(NOW)) };
    let (state, effect) = reset_password(state, stored, &moment());
    assert!(matches!(state, ResetPasswordState::Finished));
    match effect {
        Effect::Reply { reply: Reply::Message { status, message } } => {
            assert_eq!(status, 200);
            assert_eq!(message, "Password has been successfully reset.");
        }
        other => panic!("no reply: {other:?}"),
    }
}

#[test]
fn reset_whose_token_was_consumed_by_another_stores_nothing() {
    let state = ResetPasswordState::Consuming {
        user_id: "id-1".to_string(),
        password_hash: "new-hash".to_string(),
    };
    let (state, effect) = reset_password(state, Event::RowsAffected { count: 0 }, &moment());
    assert!(matches!(state, ResetPasswordState::Finished));
    match effect {
        Effect::Fail { error, clear_transient } => {
            assert_eq!(error.status, 400);
            assert_eq!(error.message, "Invalid or expired token");
            assert!(!clear_transient);
        }
        other => panic!("no failure: {other:?}"),
    }
}

#[test]
fn failed_hashing_ends_the_reset_with_the_token_untouched() {
    let (state, effect) = reset_claim(
        "reset-1".to_string(),
        "id-1".to_string(),
        Err(ErrorMessage::ExceededMaxPasswordLength(64)),
    );
    assert!(matches!(state, ResetPasswordState::Finished));
    match effect {
        Effect::Fail { error, .. } => {
            assert_eq!(error.status, 500);
            assert_eq!(error.message, "Password exceeds max length: 64 characters")
        }
        other => panic!("no failure: {other:?}"),
    }
}

#[test]
fn created_account_is_shown_by_its_public_face() {
    let (state, effect) = create_user(received(), Event::Start, &moment());
    assert!(matches!(state, RegisterState::CheckingEmail { .. }));
    assert!(matches!(effect, Effect::FindUserByEmail { ref email } if email == "ann@x.com"));
    let (state, effect) = create_user(state, Event::UserFound { found: None }, &moment());
    assert!(matches!(state, RegisterState::Saving { .. }));
    assert!(matches!(effect, Effect::InsertUser { .. }));
    let stored = Event::UserStored { user: stored_user(Some(NOW)) };
    let (state, effect) = create_user(state, stored, &moment());
    assert!(matches!(state, RegisterState::Finished));
    match effect {
        Effect::Reply { reply: Reply::Account { account } } => {
            assert_eq!(account.id, "id-1");
            assert_eq!(account.email, "ann@x.com");
            assert_eq!(account.role, "Guest");
            assert!(!account.verified);
            assert_eq!(account.created_at, NOW);
        }
        other => panic!("no account: {other:?}"),
    }
}

#[test]
fn creating_an_account_asks_for_no_mail() {
    let (state, effect) = create_user(RegisterState::Mailing, Event::MailSent, &moment());
    assert!(matches!(state, RegisterState::Finished));
    assert!(matches!(effect, Effect::Fail { ref error, .. } if error.status == 500));
}

#[test]
fn creating_an_account_refuses_a_taken_address() {
    let (state, _) = create_user(received(), Event::Start, &moment());
    let found = Event::UserFound { found: Some(stored_user(Some(NOW))) };
    let (state, effect) = create_user(state, found, &moment());
    assert!(matches!(state, RegisterState::Finished));
    match effect {
        Effect::Fail { error, .. } => {
            assert_eq!(error.status, 409);
            assert_eq!(error.message, "Email already exists");
        }
        other => panic!("no failure: {other:?}"),
    }
}

#[test]
fn record_without_times_cannot_be_shown() {
    match account_reply(&stored_user(None)) {
        Effect::Fail { error, .. } => {
            assert_eq!(error.status, 500);
            assert_eq!(error.message, "Internal server error");
        }
        other => panic!("no failure: {other:?}"),
    }
    assert!(matches!(
        account_reply(&stored_user(Some(NOW))),
        Effect::Reply { reply: Reply::Account { .. } }
    ));
}

#[test]
fn proof_key_of_unaccepted_length_gives_no_address() {
    let config = OAuthConfig::new(
        "id".to_string(),
        "secret".to_string(),
        "https://app.example.com/callback".to_string(),
        "id".to_string(),
        "secret".to_string(),
        "https://app.example.com/callback".to_string(),
    );
    let client = GoogleOAuth::new(&config).client;
    let start = |key: String| client.authorization("email", "profile", "state".to_string(), key);
    assert!(start("k".repeat(42)).is_none());
    assert!(start("k".repeat(43)).is_some());
    assert!(start("k".repeat(128)).is_some());
    assert!(start("k".repeat(129)).is_none());
    assert!(start("\u{e9}".repeat(42)).is_some());
    assert!(start("\u{e9}".repeat(65)).is_none());
}
