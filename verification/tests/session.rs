use auth_core::auth::model::TokenClaims;
use jsonwebtoken::{decode, encode, Algorithm, DecodingKey, EncodingKey, Header, Validation};
use auth_core::auth::service::{AuthService, TokenError};
use auth_core::errors::HttpError;

const SECRET: &[u8] = b"my-ultra-secure-and-ultra-long-secret";
const NOW: i64 = 1_700_000_000;

fn is_invalid_token(r: &Result<String, HttpError>) -> bool {
    match r {
        Err(e) => e.status == 401 && e.message == "Token is invalid or malformed",
        Ok(_) => false,
    }
}

#[test]
fn session_round_trip() {
    let token = AuthService::create_token("abc-123", SECRET, 60).unwrap();
    let subject = AuthService::decode_token(&token, SECRET).unwrap();
    assert_eq!(subject, "abc-123");
}

#[test]
fn session_round_trip_at_a_fixed_time() {
    let token = AuthService::create_token_at("abc-123", SECRET, 60, NOW).unwrap();
    assert_eq!(AuthService::decode_token_at(&token, SECRET, NOW).unwrap(), "abc-123");
    assert_eq!(AuthService::decode_token_at(&token, SECRET, NOW + 3599).unwrap(), "abc-123");
}

#[test]
fn session_expires_exactly_at_its_expiry() {
    let token = AuthService::create_token_at("abc-123", SECRET, 60, NOW).unwrap();
    assert!(AuthService::decode_token_at(&token, SECRET, NOW + 3599).is_ok());
    assert!(is_invalid_token(&AuthService::decode_token_at(&token, SECRET, NOW + 3600)));
    assert!(is_invalid_token(&AuthService::decode_token_at(&token, SECRET, NOW + 3601)));
}

#[test]
fn session_issued_in_the_past_is_expired() {
    let token = AuthService::create_token("abc-123", SECRET, -1).unwrap();
    assert!(is_invalid_token(&AuthService::decode_token(&token, SECRET)));
}

#[test]
fn session_with_zero_lifetime_is_expired_at_once() {
    let token = AuthService::create_token_at("abc-123", SECRET, 0, NOW).unwrap();
    assert!(is_invalid_token(&AuthService::decode_token_at(&token, SECRET, NOW)));
}

#[test]
fn empty_subject_is_refused() {
    assert!(matches!(
        AuthService::create_token("", SECRET, 60),
        Err(TokenError::InvalidSubject)
    ));
    assert!(matches!(
        AuthService::create_token_at("", SECRET, 60, NOW),
        Err(TokenError::InvalidSubject)
    ));
    assert_eq!(TokenError::InvalidSubject.to_string(), "InvalidSubject");
}

#[test]
fn claims_hold_issue_and_expiry_times() {
    let claims: TokenClaims = AuthService::session_claims("abc-123", NOW, 60).unwrap();
    assert_eq!(claims.sub, "abc-123");
    assert_eq!(claims.iat, 1_700_000_000);
    assert_eq!(claims.exp, 1_700_003_600);
    let claims = AuthService::session_claims("abc-123", NOW, -1).unwrap();
    assert_eq!(claims.exp, 1_699_999_940);
}

#[test]
fn times_that_cannot_be_written_are_refused() {
    assert!(matches!(
        AuthService::session_claims("abc-123", -1, 60),
        Err(TokenError::InvalidTime)
    ));
    assert!(matches!(
        AuthService::session_claims("abc-123", NOW, i64::MAX),
        Err(TokenError::InvalidTime)
    ));
    assert!(matches!(
        AuthService::session_claims("abc-123", NOW, i64::MIN),
        Err(TokenError::InvalidTime)
    ));
    assert!(matches!(
        AuthService::session_claims("abc-123", 60, -2),
        Err(TokenError::InvalidTime)
    ));
    assert!(AuthService::session_claims("abc-123", 60, -1).is_ok());
    assert_eq!(TokenError::InvalidTime.to_string(), "InvalidTime");
}

#[test]
fn subject_is_given_only_while_the_expiry_lies_ahead() {
    let claims = || Some(TokenClaims { sub: "abc-123".to_string(), iat: 10, exp: 20 });
    assert_eq!(AuthService::subject_if_valid(claims(), 19).unwrap(), "abc-123");
    assert!(is_invalid_token(&AuthService::subject_if_valid(claims(), 20)));
    assert!(is_invalid_token(&AuthService::subject_if_valid(claims(), 21)));
    assert!(is_invalid_token(&AuthService::subject_if_valid(None, 0)));
    assert_eq!(AuthService::subject_if_valid(claims(), -5).unwrap(), "abc-123");
}

#[test]
fn flipping_any_byte_invalidates_the_token() {
    let token = AuthService::create_token_at("abc-123", SECRET, 60, NOW).unwrap();
    let bytes = token.as_bytes();
    for i in 0..bytes.len() {
        let mut changed = bytes.to_vec();
        changed[i] ^= 0x01;
        let text = match String::from_utf8(changed) {
            Ok(t) => t,
            Err(_) => "\u{fffd}".to_string(),
        };
        assert_ne!(text, token);
        assert!(
            is_invalid_token(&AuthService::decode_token_at(&text, SECRET, NOW)),
            "byte {i}"
        );
    }
}

#[test]
fn another_secret_invalidates_the_token() {
    let token = AuthService::create_token_at("abc-123", SECRET, 60, NOW).unwrap();
    assert!(is_invalid_token(&AuthService::decode_token_at(&token, b"another-secret", NOW)));
    assert!(is_invalid_token(&AuthService::decode_token(&token, b"")));
}

#[test]
fn malformed_tokens_fail_alike() {
    for text in ["", "a.jwt.token", "not a token", "..", "a.b", "a.b.c.d"] {
        assert!(is_invalid_token(&AuthService::decode_token_at(text, SECRET, NOW)), "{text:?}");
        assert!(is_invalid_token(&AuthService::decode_token(text, SECRET)), "{text:?}");
    }
}

#[test]
fn token_is_a_compact_signed_token_with_three_parts() {
    let token = AuthService::create_token_at("abc-123", SECRET, 60, NOW).unwrap();
    assert_eq!(token.split('.').count(), 3);
    assert_ne!(token, "abc-123");
}

#[test]
fn token_depends_on_claims_and_secret_alone() {
    let first = AuthService::create_token_at("abc-123", SECRET, 60, NOW).unwrap();
    let second = AuthService::create_token_at("abc-123", SECRET, 60, NOW).unwrap();
    assert_eq!(first, second);
    assert_ne!(first, AuthService::create_token_at("abc-124", SECRET, 60, NOW).unwrap());
    assert_ne!(first, AuthService::create_token_at("abc-123", SECRET, 61, NOW).unwrap());
    assert_ne!(first, AuthService::create_token_at("abc-123", SECRET, 60, NOW + 1).unwrap());
    assert_ne!(first, AuthService::create_token_at("abc-123", b"another", 60, NOW).unwrap());
}

#[test]
fn token_is_read_by_an_independent_decoder() {
    let token = AuthService::create_token("abc-123", SECRET, 60).unwrap();
    let data = decode::<serde_json::Value>(
        &token,
        &DecodingKey::from_secret(SECRET),
        &Validation::new(Algorithm::HS256),
    )
    .unwrap();
    assert_eq!(data.header.alg, Algorithm::HS256);
    assert_eq!(data.claims["sub"], "abc-123");
    let iat = data.claims["iat"].as_i64().unwrap();
    let exp = data.claims["exp"].as_i64().unwrap();
    assert_eq!(exp - iat, 3600);
    let keys: Vec<&String> = data.claims.as_object().unwrap().keys().collect();
    assert_eq!(keys, ["sub", "iat", "exp"]);
}

#[test]
fn token_of_an_independent_encoder_is_read() {
    let mut claims = serde_json::Map::new();
    claims.insert("sub".to_string(), serde_json::Value::from("abc-123"));
    claims.insert("iat".to_string(), serde_json::Value::from(NOW));
    claims.insert("exp".to_string(), serde_json::Value::from(NOW + 60));
    let token = encode(&Header::default(), &claims, &EncodingKey::from_secret(SECRET)).unwrap();
    assert_eq!(AuthService::decode_token_at(&token, SECRET, NOW).unwrap(), "abc-123");
    assert!(is_invalid_token(&AuthService::decode_token_at(&token, SECRET, NOW + 60)));
}

#[test]
fn token_without_all_three_claims_is_invalid() {
    let mut claims = serde_json::Map::new();
    claims.insert("sub".to_string(), serde_json::Value::from("abc-123"));
    claims.insert("exp".to_string(), serde_json::Value::from(NOW + 60));
    let token = encode(&Header::default(), &claims, &EncodingKey::from_secret(SECRET)).unwrap();
    assert!(is_invalid_token(&AuthService::decode_token_at(&token, SECRET, NOW)));
}

#[test]
fn results_of_the_signer_are_passed_on() {
    assert_eq!(AuthService::signing_result(Ok("a.b.c".to_string())).unwrap(), "a.b.c");
    match AuthService::signing_result(Err("key refused".to_string())) {
        Err(TokenError::Signing(why)) => assert_eq!(why, "key refused"),
        other => panic!("no signing failure: {other:?}"),
    }
}

#[test]
fn ordinary_lifetimes_never_fail_on_the_times() {
    for ttl in [0, 1, 60, 60 * 24 * 365] {
        assert!(AuthService::create_token("abc-123", SECRET, ttl).is_ok(), "{ttl}");
    }
    assert!(matches!(
        AuthService::create_token("abc-123", SECRET, i64::MAX),
        Err(TokenError::InvalidTime)
    ));
}
