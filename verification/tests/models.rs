use auth_core::auth::model::AuthProvider;
use auth_core::errors::{ErrorMessage, ErrorResponse, HttpError, OAuthError};
use auth_core::jobs::model::JobType;
use auth_core::skills::dto::{SkillListResponseDto, SkillResponseDto};
use auth_core::text::{join2, join3, same_text, usize_to_string};
use auth_core::users::dto::FilterUserDto;
use auth_core::users::model::{User, UserRole};
use auth_core::utils::merge::{or_keep, or_keep_optional};
use auth_core::utils::paging::{page_and_limit, window, Window};

fn user(created_at: i64) -> User {
    User {
        id: "id-1".to_string(),
        name: "Ann".to_string(),
        email: "ann@x.com".to_string(),
        password: "hash".to_string(),
        role: UserRole::Admin,
        verified: true,
        verification_token: Some("token".to_string()),
        token_expires_at: Some(5),
        provider: AuthProvider::Local,
        created_at: Some(created_at),
        updated_at: Some(created_at + 1),
    }
}

#[test]
fn roles_have_names() {
    assert_eq!(UserRole::Admin.to_str(), "Admin");
    assert_eq!(UserRole::User.to_str(), "User");
    assert_eq!(UserRole::Guest.to_str(), "Guest");
}

#[test]
fn roles_are_read_whatever_the_case() {
    assert_eq!(UserRole::from_str("admin"), Ok(UserRole::Admin));
    assert_eq!(UserRole::from_str("USER"), Ok(UserRole::User));
    assert_eq!(UserRole::from_str("Guest"), Ok(UserRole::Guest));
    assert_eq!(UserRole::from_str("root"), Err("Invalid user role: root".to_string()));
    assert_eq!(UserRole::from_str(""), Err("Invalid user role: ".to_string()));
    assert_eq!(UserRole::from_lowercase("admin", "ADMIN"), Ok(UserRole::Admin));
    assert_eq!(
        UserRole::from_lowercase("ADMIN", "ADMIN"),
        Err("Invalid user role: ADMIN".to_string())
    );
}

#[test]
fn providers_have_names() {
    assert_eq!(AuthProvider::Local.to_str(), "Local");
    assert_eq!(AuthProvider::Google.to_str(), "Google");
    assert_eq!(AuthProvider::Github.to_str(), "Github");
}

#[test]
fn providers_are_read_whatever_the_case() {
    assert_eq!(AuthProvider::from_str("local"), Ok(AuthProvider::Local));
    assert_eq!(AuthProvider::from_str("GOOGLE"), Ok(AuthProvider::Google));
    assert_eq!(AuthProvider::from_str("GitHub"), Ok(AuthProvider::Github));
    assert_eq!(
        AuthProvider::from_str("Facebook"),
        Err("Invalid auth provider: Facebook".to_string())
    );
}

#[test]
fn job_types_have_names() {
    assert_eq!(JobType::Remote.to_str(), "Remote");
    assert_eq!(JobType::OnSite.to_str(), "OnSite");
    assert_eq!(JobType::Hybrid.to_str(), "Hybrid");
}

#[test]
fn error_kinds_have_sentences() {
    let cases = [
        (ErrorMessage::EmptyPassword, "Password cannot be empty"),
        (
            ErrorMessage::ExceededMaxPasswordLength(64),
            "Password exceeds max length: 64 characters",
        ),
        (ErrorMessage::ExceededMaxPasswordLength(0), "Password exceeds max length: 0 characters"),
        (
            ErrorMessage::ExceededMaxPasswordLength(1205),
            "Password exceeds max length: 1205 characters",
        ),
        (ErrorMessage::InvalidHashFormat, "Password hash format is invalid"),
        (ErrorMessage::HashingError, "An error occurred while hashing the password"),
        (ErrorMessage::InvalidToken, "Token is invalid or malformed"),
        (ErrorMessage::ServerError, "Internal server error"),
        (ErrorMessage::WrongCredentials, "Incorrect email or password"),
        (ErrorMessage::EmailExist, "Email already exists"),
        (ErrorMessage::UserNoLongerExist, "User no longer exists"),
        (ErrorMessage::TokenNotProvided, "Authorization token not provided"),
        (
            ErrorMessage::PermissionDenied,
            "You do not have permission to access this resource",
        ),
        (ErrorMessage::UserNotAuthenticated, "User authentication required"),
    ];
    for (kind, sentence) in cases {
        assert_eq!(kind.to_string(), sentence);
    }
}

#[test]
fn failures_carry_their_status() {
    let cases = [
        (HttpError::server_error("m".to_string()), 500),
        (HttpError::bad_request("m".to_string()), 400),
        (HttpError::unique_constraint_violation("m".to_string()), 409),
        (HttpError::unauthorized("m".to_string()), 401),
        (HttpError::forbidden("m".to_string()), 403),
        (HttpError::new("m".to_string(), 418), 418),
    ];
    for (error, status) in cases {
        assert_eq!(error.status, status);
        assert_eq!(error.message, "m");
    }
}

#[test]
fn failure_is_described_with_the_standard_phrase() {
    assert_eq!(
        HttpError::unauthorized("no".to_string()).to_string(),
        "HttpError: message: no, status: 401 Unauthorized"
    );
    assert_eq!(
        HttpError::new("odd".to_string(), 799).to_string(),
        "HttpError: message: odd, status: 799 <unknown status code>"
    );
    assert_eq!(
        HttpError::new("none".to_string(), 42).to_string(),
        "HttpError: message: none, status: 42"
    );
    assert_eq!(
        HttpError::new("given".to_string(), 500).describe(Some("as told".to_string())),
        "HttpError: message: given, status: as told"
    );
}

#[test]
fn failure_body_says_fail() {
    let (status, body) = HttpError::bad_request("Email not found!".to_string()).into_http_response();
    assert_eq!(status, 400);
    assert_eq!(body.status, "fail");
    assert_eq!(body.message, "Email not found!");
    assert_eq!(body.to_string(), r#"{"status":"fail","message":"Email not found!"}"#);
}

#[test]
fn failure_body_escapes_its_text() {
    let body = ErrorResponse { status: "fail".to_string(), message: "a \"b\"\n".to_string() };
    assert_eq!(body.to_string(), r#"{"status":"fail","message":"a \"b\"\n"}"#);
}

#[test]
fn provider_errors_have_sentences() {
    assert_eq!(OAuthError::OAuth("bad".to_string()).to_string(), "OAuth error: bad");
    assert_eq!(OAuthError::Http("down".to_string()).to_string(), "HTTP error: down");
}

#[test]
fn numbers_are_rendered_in_decimal() {
    assert_eq!(usize_to_string(0), "0");
    assert_eq!(usize_to_string(7), "7");
    assert_eq!(usize_to_string(10), "10");
    assert_eq!(usize_to_string(64), "64");
    assert_eq!(usize_to_string(1_234_567_890), "1234567890");
    assert_eq!(usize_to_string(usize::MAX), usize::MAX.to_string());
}

#[test]
fn texts_are_joined_and_compared() {
    assert_eq!(join2("ab", "cd"), "abcd");
    assert_eq!(join3("a", "", "c"), "ac");
    assert!(same_text("abc", "abc"));
    assert!(!same_text("abc", "abd"));
    assert!(!same_text("abc", "ab"));
}

#[test]
fn public_face_hides_hash_and_token() {
    let face = FilterUserDto::filter_user(&user(100));
    assert_eq!(face.id, "id-1");
    assert_eq!(face.name, "Ann");
    assert_eq!(face.email, "ann@x.com");
    assert_eq!(face.role, "Admin");
    assert!(face.verified);
    assert_eq!(face.created_at, 100);
    assert_eq!(face.updated_at, 101);
    assert!(face.skills.is_empty());
}

#[test]
fn public_faces_keep_the_order() {
    let users = vec![user(1), user(2), user(3)];
    let faces = FilterUserDto::filter_users(&users);
    assert_eq!(faces.len(), 3);
    assert_eq!(faces[0].created_at, 1);
    assert_eq!(faces[2].created_at, 3);
    assert!(FilterUserDto::filter_users(&[]).is_empty());
}

#[test]
fn public_face_carries_the_skills_given() {
    let skills = vec![SkillResponseDto { id: "s-1".to_string(), name: "Rust".to_string() }];
    let face = FilterUserDto::filter_user_with_skills(&user(100), skills);
    assert_eq!(face.skills.len(), 1);
    assert_eq!(face.skills[0].name, "Rust");
    assert_eq!(face.role, "Admin");
}

#[test]
fn skill_list_counts_its_entries() {
    let skills = vec![
        SkillResponseDto { id: "s-1".to_string(), name: "Rust".to_string() },
        SkillResponseDto { id: "s-2".to_string(), name: "Verus".to_string() },
    ];
    let list = SkillListResponseDto::new(skills, true);
    assert_eq!(list.status, "success");
    assert_eq!(list.results, 2);
    assert_eq!(list.skills[1].id, "s-2");
    assert!(list.has_next_page);
}

#[test]
fn update_overrides_only_what_it_names() {
    assert_eq!(or_keep(Some(5), 3), 5);
    assert_eq!(or_keep(None, 3), 3);
    assert_eq!(or_keep(Some("new".to_string()), "old".to_string()), "new");
    assert_eq!(or_keep_optional(Some(5), None), Some(5));
    assert_eq!(or_keep_optional(None, Some(3)), Some(3));
    assert_eq!(or_keep_optional::<i32>(None, None), None);
}

#[test]
fn pages_have_windows() {
    assert_eq!(page_and_limit(None, None), (1, 10));
    assert_eq!(page_and_limit(Some(3), None), (3, 10));
    assert_eq!(page_and_limit(None, Some(25)), (1, 25));
    assert_eq!(window(1, 10), Some(Window { limit: 10, offset: 0 }));
    assert_eq!(window(3, 10), Some(Window { limit: 10, offset: 20 }));
    assert_eq!(window(7, 0), Some(Window { limit: 0, offset: 0 }));
    assert_eq!(window(0, 10), None);
    assert_eq!(window(usize::MAX, usize::MAX), None);
}

#[test]
fn job_types_are_read_letter_for_letter() {
    assert_eq!(JobType::from_name("Remote"), Some(JobType::Remote));
    assert_eq!(JobType::from_name("OnSite"), Some(JobType::OnSite));
    assert_eq!(JobType::from_name("Hybrid"), Some(JobType::Hybrid));
    assert_eq!(JobType::from_name("remote"), None);
    assert_eq!(JobType::from_name(""), None);
}
