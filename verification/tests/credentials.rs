use argon2::password_hash::{PasswordHash, PasswordVerifier};
use auth_core::auth::service::{AuthService, MAX_PASSWORD_LENGTH};
use auth_core::errors::ErrorMessage;

const SALT: &str = "c29tZXNhbHRzb21lc2FsdA";
const OTHER_SALT: &str = "YW5vdGhlcnNhbHRhbm90aA";

#[test]
fn hash_rejects_empty_password() {
    assert_eq!(AuthService::hash_password(""), Err(ErrorMessage::EmptyPassword));
}

#[test]
fn hash_rejects_overlong_password() {
    let long = "a".repeat(65);
    assert_eq!(
        AuthService::hash_password(&long),
        Err(ErrorMessage::ExceededMaxPasswordLength(64))
    );
    assert_eq!(MAX_PASSWORD_LENGTH, 64);
}

#[test]
fn hash_accepts_password_of_exactly_the_limit() {
    let limit = "b".repeat(64);
    let hash = AuthService::hash_password(&limit).unwrap();
    assert_eq!(AuthService::compare(&limit, &hash), Ok(true));
}

#[test]
fn password_length_is_counted_in_characters() {
    let sixty_four = "\u{00e9}".repeat(64);
    assert_eq!(sixty_four.len(), 128);
    assert_eq!(AuthService::check_password(&sixty_four), Ok(()));
    let sixty_five = "\u{00e9}".repeat(65);
    assert_eq!(
        AuthService::check_password(&sixty_five),
        Err(ErrorMessage::ExceededMaxPasswordLength(64))
    );
}

#[test]
fn check_password_accepts_one_character() {
    assert_eq!(AuthService::check_password("x"), Ok(()));
    assert_eq!(AuthService::check_password(""), Err(ErrorMessage::EmptyPassword));
}

#[test]
fn hash_then_compare_round_trip() {
    let hash = AuthService::hash_password("secret1").unwrap();
    assert_eq!(AuthService::compare("secret1", &hash), Ok(true));
    assert_eq!(AuthService::compare("secret2", &hash), Ok(false));
}

#[test]
fn round_trip_holds_for_many_passwords() {
    for password in ["a", "correct horse battery staple", "p\u{e4}ssw\u{f6}rd", "  spaces  ", "1234567890"] {
        let hash = AuthService::hash_password_with_salt(password, SALT).unwrap();
        assert_eq!(AuthService::compare(password, &hash), Ok(true), "{password}");
    }
}

#[test]
fn hash_is_self_describing_and_not_the_password() {
    let hash = AuthService::hash_password("secret1").unwrap();
    assert!(hash.starts_with("$argon2id$v=19$"));
    assert_ne!(hash, "secret1");
    assert!(!hash.contains("secret1"));
}

#[test]
fn fresh_salt_makes_hashes_differ() {
    let first = AuthService::hash_password("secret1").unwrap();
    let second = AuthService::hash_password("secret1").unwrap();
    assert_ne!(first, second);
}

#[test]
fn same_salt_gives_same_hash() {
    let first = AuthService::hash_password_with_salt("secret1", SALT).unwrap();
    let second = AuthService::hash_password_with_salt("secret1", SALT).unwrap();
    assert_eq!(first, second);
    let third = AuthService::hash_password_with_salt("secret1", OTHER_SALT).unwrap();
    assert_ne!(first, third);
    assert!(first.contains(SALT));
}

#[test]
fn unusable_salt_is_a_hashing_error() {
    assert_eq!(
        AuthService::hash_password_with_salt("secret1", "!!"),
        Err(ErrorMessage::HashingError)
    );
}

#[test]
fn length_is_checked_before_the_salt() {
    assert_eq!(
        AuthService::hash_password_with_salt("", "!!"),
        Err(ErrorMessage::EmptyPassword)
    );
}

#[test]
fn compare_rejects_malformed_hash() {
    assert_eq!(
        AuthService::compare("secret1", "not-a-valid-hash"),
        Err(ErrorMessage::InvalidHashFormat)
    );
    assert_eq!(AuthService::compare("secret1", ""), Err(ErrorMessage::InvalidHashFormat));
}

#[test]
fn compare_checks_the_password_first() {
    assert_eq!(
        AuthService::compare("", "not-a-valid-hash"),
        Err(ErrorMessage::EmptyPassword)
    );
    let long = "a".repeat(65);
    assert_eq!(
        AuthService::compare(&long, "not-a-valid-hash"),
        Err(ErrorMessage::ExceededMaxPasswordLength(64))
    );
}

#[test]
fn compare_never_fails_on_mismatch() {
    let hash = AuthService::hash_password_with_salt("secret1", SALT).unwrap();
    assert_eq!(AuthService::compare("Secret1", &hash), Ok(false));
    assert_eq!(AuthService::compare("secret1 ", &hash), Ok(false));
}

#[test]
fn compare_agrees_with_an_independent_verifier() {
    let hash = AuthService::hash_password("secret1").unwrap();
    let parsed = PasswordHash::new(&hash).unwrap();
    assert!(argon2::Argon2::default().verify_password(b"secret1", &parsed).is_ok());
    assert!(argon2::Argon2::default().verify_password(b"other", &parsed).is_err());
}

#[test]
fn results_of_the_hasher_are_passed_on() {
    assert_eq!(AuthService::hashing_result(Some("$argon2id$x".to_string())), Ok("$argon2id$x".to_string()));
    assert_eq!(AuthService::hashing_result(None), Err(ErrorMessage::HashingError));
    assert_eq!(AuthService::hash_format(true), Ok(()));
    assert_eq!(AuthService::hash_format(false), Err(ErrorMessage::InvalidHashFormat));
}

#[test]
fn every_acceptable_password_is_hashed() {
    for password in ["x".to_string(), "y".repeat(64), "\u{1f511}".repeat(64)] {
        let hash = AuthService::hash_password(&password).unwrap();
        assert_eq!(AuthService::compare(&password, &hash), Ok(true));
    }
}
