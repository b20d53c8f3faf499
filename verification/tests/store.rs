use auth_core::auth::model::AuthProvider;
use auth_core::auth::verification::TokenPurpose;
use auth_core::users::model::{User, UserRole};
use auth_core::users::service::{Change, StoreError, UserKey, UserService};

const NOW: i64 = 1_700_000_000;

fn store_with_ann_and_bob() -> UserService {
    let mut store = UserService::new();
    store
        .save_user(
            "id-1".to_string(),
            "Ann".to_string(),
            "ann@x.com".to_string(),
            "hash-1".to_string(),
            "token-1".to_string(),
            NOW + 86400,
            NOW,
        )
        .unwrap();
    store
        .save_oauth_user(
            "id-2".to_string(),
            "Bob".to_string(),
            "bob@x.com".to_string(),
            AuthProvider::Google,
            NOW + 1,
        )
        .unwrap();
    store
}

fn by_id(store: &UserService, id: &str) -> User {
    store.find(&UserKey::Id(id.to_string())).unwrap()
}

#[test]
fn new_store_is_empty() {
    let store = UserService::new();
    assert_eq!(store.get_user_count(), 0);
    assert!(store.find(&UserKey::Email("ann@x.com".to_string())).is_none());
}

#[test]
fn local_account_starts_unverified_in_the_lowest_role() {
    let store = store_with_ann_and_bob();
    let ann = by_id(&store, "id-1");
    assert_eq!(ann.name, "Ann");
    assert_eq!(ann.email, "ann@x.com");
    assert_eq!(ann.password, "hash-1");
    assert_eq!(ann.role, UserRole::Guest);
    assert!(!ann.verified);
    assert_eq!(ann.verification_token, Some("token-1".to_string()));
    assert_eq!(ann.token_expires_at, Some(NOW + 86400));
    assert_eq!(ann.provider, AuthProvider::Local);
    assert_eq!(ann.created_at, Some(NOW));
    assert_eq!(ann.updated_at, Some(NOW));
}

#[test]
fn delegated_account_starts_verified_without_password_and_token() {
    let store = store_with_ann_and_bob();
    let bob = by_id(&store, "id-2");
    assert_eq!(bob.password, "");
    assert!(bob.verified);
    assert_eq!(bob.role, UserRole::Guest);
    assert_eq!(bob.verification_token, None);
    assert_eq!(bob.token_expires_at, None);
    assert_eq!(bob.provider, AuthProvider::Google);
    assert_eq!(bob.created_at, Some(NOW + 1));
}

#[test]
fn no_address_and_no_identifier_is_stored_twice() {
    let mut store = store_with_ann_and_bob();
    let same_email = store.save_user(
        "id-3".to_string(),
        "Ann Two".to_string(),
        "ann@x.com".to_string(),
        "hash".to_string(),
        "token".to_string(),
        NOW,
        NOW,
    );
    assert!(matches!(same_email, Err(StoreError::Duplicate)));
    let same_id = store.save_oauth_user(
        "id-1".to_string(),
        "Carl".to_string(),
        "carl@x.com".to_string(),
        AuthProvider::Github,
        NOW,
    );
    assert!(matches!(same_id, Err(StoreError::Duplicate)));
    assert_eq!(store.get_user_count(), 2);
    assert_eq!(
        StoreError::Duplicate.to_string(),
        "duplicate key value violates unique constraint"
    );
}

#[test]
fn lookup_goes_by_the_first_key_offered() {
    let store = store_with_ann_and_bob();
    let some = |s: &str| Some(s.to_string());
    let found = store.get_user(some("id-2"), some("Ann"), some("ann@x.com"), some("token-1"));
    assert_eq!(found.unwrap().id, "id-2");
    let found = store.get_user(None, some("Ann"), some("bob@x.com"), None);
    assert_eq!(found.unwrap().id, "id-1");
    let found = store.get_user(None, None, some("bob@x.com"), some("token-1"));
    assert_eq!(found.unwrap().id, "id-2");
    let found = store.get_user(None, None, None, some("token-1"));
    assert_eq!(found.unwrap().id, "id-1");
    assert!(store.get_user(None, None, None, None).is_none());
    assert!(store.get_user(some("id-9"), some("Ann"), None, None).is_none());
}

#[test]
fn key_selection_follows_the_order_of_precedence() {
    let some = |s: &str| Some(s.to_string());
    assert!(matches!(
        UserKey::select(some("i"), some("n"), some("e"), some("t")),
        Some(UserKey::Id(id)) if id == "i"
    ));
    assert!(matches!(
        UserKey::select(None, some("n"), some("e"), some("t")),
        Some(UserKey::Name(name)) if name == "n"
    ));
    assert!(matches!(
        UserKey::select(None, None, some("e"), some("t")),
        Some(UserKey::Email(email)) if email == "e"
    ));
    assert!(matches!(
        UserKey::select(None, None, None, some("t")),
        Some(UserKey::Token(token)) if token == "t"
    ));
    assert!(UserKey::select(None, None, None, None).is_none());
}

#[test]
fn consuming_a_token_verifies_promotes_and_clears() {
    let mut store = store_with_ann_and_bob();
    assert_eq!(store.verifed_token("token-1", TokenPurpose::NewAccount, NOW + 5), 1);
    let ann = by_id(&store, "id-1");
    assert!(ann.verified);
    assert_eq!(ann.role, UserRole::User);
    assert_eq!(ann.verification_token, None);
    assert_eq!(ann.token_expires_at, None);
    assert_eq!(ann.updated_at, Some(NOW + 5));
    assert_eq!(ann.created_at, Some(NOW));
    let bob = by_id(&store, "id-2");
    assert_eq!(bob.role, UserRole::Guest);
    assert_eq!(bob.updated_at, Some(NOW + 1));
}

#[test]
fn a_token_is_consumed_at_most_once() {
    let mut store = store_with_ann_and_bob();
    assert_eq!(store.verifed_token("token-1", TokenPurpose::NewAccount, NOW), 1);
    assert_eq!(store.verifed_token("token-1", TokenPurpose::NewAccount, NOW), 0);
    assert!(store.find(&UserKey::Token("token-1".to_string())).is_none());
    assert_eq!(store.verifed_token("never-issued", TokenPurpose::PasswordReset, NOW), 0);
}

#[test]
fn a_token_held_by_several_records_is_cleared_on_all() {
    let mut store = store_with_ann_and_bob();
    assert_eq!(store.add_verifed_token("id-2", "token-1", NOW + 60, NOW), 1);
    assert_eq!(store.verifed_token("token-1", TokenPurpose::NewAccount, NOW + 2), 2);
    assert!(by_id(&store, "id-1").verified);
    assert_eq!(by_id(&store, "id-2").role, UserRole::User);
    assert_eq!(by_id(&store, "id-2").verification_token, None);
}

#[test]
fn granting_a_token_sets_token_and_expiry() {
    let mut store = store_with_ann_and_bob();
    assert_eq!(store.add_verifed_token("id-2", "reset-1", NOW + 1800, NOW + 3), 1);
    let bob = by_id(&store, "id-2");
    assert_eq!(bob.verification_token, Some("reset-1".to_string()));
    assert_eq!(bob.token_expires_at, Some(NOW + 1800));
    assert_eq!(bob.updated_at, Some(NOW + 3));
    assert_eq!(store.add_verifed_token("id-9", "reset-2", NOW, NOW), 0);
    assert_eq!(by_id(&store, "id-1").verification_token, Some("token-1".to_string()));
}

#[test]
fn updates_change_one_field_and_hand_the_record_back() {
    let mut store = store_with_ann_and_bob();
    let ann = store.update_user_password("id-1", "hash-2".to_string(), NOW + 7).unwrap();
    assert_eq!(ann.password, "hash-2");
    assert_eq!(ann.updated_at, Some(NOW + 7));
    assert_eq!(by_id(&store, "id-1").password, "hash-2");
    let ann = store.update_user_role("id-1", UserRole::Admin, NOW + 8).unwrap();
    assert_eq!(ann.role, UserRole::Admin);
    let ann = store.update_user_name("id-1", "Anna".to_string(), NOW + 9).unwrap();
    assert_eq!(ann.name, "Anna");
    let ann = by_id(&store, "id-1");
    assert_eq!(ann.password, "hash-2");
    assert_eq!(ann.role, UserRole::Admin);
    assert_eq!(ann.name, "Anna");
    assert_eq!(ann.email, "ann@x.com");
    assert_eq!(by_id(&store, "id-2").name, "Bob");
}

#[test]
fn update_of_a_missing_record_changes_nothing() {
    let mut store = store_with_ann_and_bob();
    let r = store.update_user_password("id-9", "hash".to_string(), NOW);
    assert!(matches!(r, Err(StoreError::NotFound)));
    assert!(matches!(
        store.update_user_role("id-9", UserRole::Admin, NOW),
        Err(StoreError::NotFound)
    ));
    assert_eq!(by_id(&store, "id-1").password, "hash-1");
    assert_eq!(
        StoreError::NotFound.to_string(),
        "no rows returned by a query that expected to return at least one row"
    );
}

#[test]
fn apply_reports_how_many_records_were_touched() {
    let mut store = store_with_ann_and_bob();
    let change = Change::Role { id: "id-2".to_string(), role: UserRole::Admin };
    assert_eq!(store.apply(&change, NOW), 1);
    assert_eq!(by_id(&store, "id-2").role, UserRole::Admin);
    let change = Change::Consume {
        token: "nobody-holds-this".to_string(),
        purpose: TokenPurpose::NewAccount,
    };
    assert_eq!(store.apply(&change, NOW), 0);
}

#[test]
fn duplicate_is_a_faithful_copy() {
    let store = store_with_ann_and_bob();
    let ann = by_id(&store, "id-1");
    let copy = ann.duplicate();
    assert_eq!(copy.id, ann.id);
    assert_eq!(copy.email, ann.email);
    assert_eq!(copy.password, ann.password);
    assert_eq!(copy.verification_token, ann.verification_token);
    assert_eq!(copy.token_expires_at, ann.token_expires_at);
    assert_eq!(copy.role, ann.role);
    assert_eq!(copy.provider, ann.provider);
}

#[test]
fn password_reset_consumption_verifies_and_leaves_the_role_alone() {
    let mut store = store_with_ann_and_bob();
    store.update_user_role("id-1", UserRole::Admin, NOW + 1).unwrap();
    assert!(!by_id(&store, "id-1").verified);
    assert_eq!(store.verifed_token("token-1", TokenPurpose::PasswordReset, NOW + 5), 1);
    let ann = by_id(&store, "id-1");
    assert_eq!(ann.role, UserRole::Admin);
    assert!(ann.verified);
    assert_eq!(ann.verification_token, None);
    assert_eq!(ann.token_expires_at, None);
    assert_eq!(ann.updated_at, Some(NOW + 5));
    assert_eq!(ann.id, "id-1");
    assert_eq!(ann.email, "ann@x.com");
    assert_eq!(ann.password, "hash-1");
    assert_eq!(ann.provider, AuthProvider::Local);
    assert!(store.find(&UserKey::Token("token-1".to_string())).is_none());
    let bob = by_id(&store, "id-2");
    assert_eq!(bob.role, UserRole::Guest);
    assert_eq!(bob.updated_at, Some(NOW + 1));
    assert_eq!(store.verifed_token("token-1", TokenPurpose::PasswordReset, NOW + 6), 0);
}

#[test]
fn password_reset_consumption_does_not_lift_the_lowest_role() {
    let mut store = store_with_ann_and_bob();
    assert_eq!(store.verifed_token("token-1", TokenPurpose::PasswordReset, NOW + 5), 1);
    let ann = by_id(&store, "id-1");
    assert_eq!(ann.role, UserRole::Guest);
    assert!(ann.verified);
}

#[test]
fn confirmation_lifts_only_the_lowest_role() {
    let mut store = store_with_ann_and_bob();
    store.update_user_role("id-1", UserRole::Admin, NOW + 1).unwrap();
    assert_eq!(store.verifed_token("token-1", TokenPurpose::NewAccount, NOW + 5), 1);
    let ann = by_id(&store, "id-1");
    assert_eq!(ann.role, UserRole::Admin);
    assert!(ann.verified);
    assert_eq!(UserRole::Guest.promote(), UserRole::User);
    assert_eq!(UserRole::User.promote(), UserRole::User);
    assert_eq!(UserRole::Admin.promote(), UserRole::Admin);
}
