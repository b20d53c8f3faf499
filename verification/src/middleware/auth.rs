//! Access control: who is calling, and may they?
//!
//! A request is authenticated by its session token and the user record
//! behind it, and authorized by the membership of the user's role in the set
//! of roles that the operation asks for. Role-based access is decided here
//! and nowhere else.

use crate::auth::flow::{
    failure, out_of_turn, store_failure, Effect, EffectView, Event, EventView, Moment, Reply,
    ReplyView,
};
use crate::auth::service::{jwt_hs256_claims, AuthService};
use crate::config::AppConfig;
use crate::errors::{
    http_error, ErrorMessage, HttpError, HttpErrorView, STATUS_FORBIDDEN, STATUS_UNAUTHORIZED,
};
use crate::text::same_text;
use crate::users::model::{text_of, User, UserRole};
use vstd::prelude::*;
use vstd::string::*;

verus! {

/// The identity that an authenticated request carries.
#[derive(Debug)]
pub struct JWTAuthMiddeware {
    pub user: User,
}

/// Whether a role is among the roles that an operation asks for.
pub open spec fn role_allowed(role: UserRole, required_roles: Seq<UserRole>) -> bool {
    required_roles.contains(role)
}

/// The verdict on a caller: a caller without identity is not
/// authenticated; a caller whose role is not asked for is forbidden; every
/// other caller may pass.
pub open spec fn access_verdict(role: Option<UserRole>, required_roles: Seq<UserRole>) -> Result<
    (),
    HttpErrorView,
> {
    match role {
        None => Err(http_error(STATUS_UNAUTHORIZED, ErrorMessage::UserNotAuthenticated.text())),
        Some(role) => if role_allowed(role, required_roles) {
            Ok(())
        } else {
            Err(http_error(STATUS_FORBIDDEN, ErrorMessage::PermissionDenied.text()))
        },
    }
}

/// Whether a role is among the roles that an operation asks for.
pub fn has_role(role: UserRole, required_roles: &Vec<UserRole>) -> (r: bool)
    ensures
        r == role_allowed(role, required_roles@),
{
    let mut i: usize = 0;
    while i < required_roles.len()
        invariant
            i <= required_roles.len(),
            forall|j: int| 0 <= j < i ==> required_roles@[j] != role,
        decreases required_roles.len() - i,
    {
        if required_roles[i] == role {
            assert(required_roles@[i as int] == role);
            return true;
        }
        i = i + 1;
    }
    false
}

/// Decides whether a user may perform an operation that asks for one of
/// `required_roles`.
pub fn authorize(user: &User, required_roles: &Vec<UserRole>) -> (r: Result<(), HttpError>)
    ensures
        match access_verdict(Some(user.role), required_roles@) {
            Ok(_) => r is Ok,
            Err(e) => r is Err && r->Err_0@ == e,
        },
{
    if has_role(user.role, required_roles) {
        Ok(())
    } else {
        Err(HttpError::forbidden(ErrorMessage::PermissionDenied.to_string()))
    }
}

/// The role of the caller behind an optional identity.
pub open spec fn caller_role(identity: Option<&JWTAuthMiddeware>) -> Option<UserRole> {
    match identity {
        Some(caller) => Some(caller.user.role),
        None => None,
    }
}

/// Lets a request pass only if it carries an identity whose role is among
/// `required_roles`.
pub fn role_check(
    identity: Option<&JWTAuthMiddeware>,
    required_roles: &Vec<UserRole>,
) -> (r: Result<(), HttpError>)
    ensures
        match access_verdict(caller_role(identity), required_roles@) {
            Ok(_) => r is Ok,
            Err(e) => r is Err && r->Err_0@ == e,
        },
{
    match identity {
        None => Err(HttpError::unauthorized(ErrorMessage::UserNotAuthenticated.to_string())),
        Some(caller) => authorize(&caller.user, required_roles),
    }
}

/// The length of the word that introduces a token in the `Authorization`
/// header, with the blank behind it.
pub const BEARER_PREFIX_LENGTH: usize = 7;

/// The token that an `Authorization` header carries: what follows the word
/// `Bearer` and one blank. A header of another form carries none.
pub open spec fn bearer(header: Seq<char>) -> Option<Seq<char>> {
    if header.len() >= BEARER_PREFIX_LENGTH && header.subrange(0, BEARER_PREFIX_LENGTH as int)
        == "Bearer "@ {
        Some(header.subrange(BEARER_PREFIX_LENGTH as int, header.len() as int))
    } else {
        None
    }
}

/// The session token that a request presents: the one in its cookie, or,
/// without a cookie, the one in its `Authorization` header.
pub open spec fn presented_token(
    cookie: Option<Seq<char>>,
    authorization: Option<Seq<char>>,
) -> Option<Seq<char>> {
    match cookie {
        Some(token) => Some(token),
        None => match authorization {
            Some(header) => bearer(header),
            None => None,
        },
    }
}

/// Reads the token out of an `Authorization` header.
pub fn bearer_token(header: &str) -> (r: Option<String>)
    ensures
        text_of(r) == bearer(header@),
{
    let length = header.unicode_len();
    if length < BEARER_PREFIX_LENGTH {
        return None;
    }
    if same_text(header.substring_char(0, BEARER_PREFIX_LENGTH), "Bearer ") {
        Some(String::from_str(header.substring_char(BEARER_PREFIX_LENGTH, length)))
    } else {
        None
    }
}

/// Chooses the session token that a request presents.
pub fn session_token(cookie: Option<String>, authorization: Option<String>) -> (r: Option<String>)
    ensures
        text_of(r) == presented_token(text_of(cookie), text_of(authorization)),
{
    match cookie {
        Some(token) => Some(token),
        None => match authorization {
            Some(header) => bearer_token(header.as_str()),
            None => None,
        },
    }
}

/// Where the authentication of a request stands.
#[derive(Debug)]
pub enum AuthState {
    /// The request has arrived, with or without a session token.
    Received { token: Option<String> },
    /// The user store is looking for the user that the token names.
    Loading,
    Finished,
}

/// The mathematical content of an [`AuthState`].
pub ghost enum AuthStateView {
    Received { token: Option<Seq<char>> },
    Loading,
    Finished,
}

impl View for AuthState {
    type V = AuthStateView;

    open spec fn view(&self) -> AuthStateView {
        match self {
            AuthState::Received { token } => AuthStateView::Received { token: text_of(*token) },
            AuthState::Loading => AuthStateView::Loading,
            AuthState::Finished => AuthStateView::Finished,
        }
    }
}

/// What authentication does with a token, given the subject that verifying
/// it gave: it asks for the user of that name, or fails as verification did.
pub open spec fn token_outcome(verified: Result<Seq<char>, HttpErrorView>) -> (
    AuthStateView,
    EffectView,
) {
    match verified {
        Ok(subject) => (AuthStateView::Loading, EffectView::FindUserById { id: subject }),
        Err(error) => (AuthStateView::Finished, EffectView::Fail { error, clear_transient: false }),
    }
}

/// The next state and effect of the authentication of a request.
///
/// A bad token and a token whose user is gone are both answered as
/// unauthenticated, with different sentences.
pub open spec fn auth_next(state: AuthStateView, event: EventView, secret: Seq<u8>, now: int) -> (
    AuthStateView,
    EffectView,
) {
    match (state, event) {
        (AuthStateView::Received { token: None }, EventView::Start) => (
            AuthStateView::Finished,
            failure(STATUS_UNAUTHORIZED, ErrorMessage::TokenNotProvided.text()),
        ),
        (AuthStateView::Received { token: Some(token) }, EventView::Start) => token_outcome(
            AuthService::decode_outcome(jwt_hs256_claims(token, secret), now),
        ),
        (AuthStateView::Loading, EventView::UserFound { found: None }) => (
            AuthStateView::Finished,
            failure(STATUS_UNAUTHORIZED, ErrorMessage::UserNoLongerExist.text()),
        ),
        (AuthStateView::Loading, EventView::UserFound { found: Some(user) }) => (
            AuthStateView::Finished,
            EffectView::Reply { reply: ReplyView::Identity { user } },
        ),
        (AuthStateView::Loading, EventView::StoreFailed { reason }) => (
            AuthStateView::Finished,
            store_failure(reason),
        ),
        _ => (AuthStateView::Finished, out_of_turn()),
    }
}

/// The content of what verifying a token returned.
pub open spec fn verified_view(r: Result<String, HttpError>) -> Result<Seq<char>, HttpErrorView> {
    match r {
        Ok(subject) => Ok(subject@),
        Err(e) => Err(e@),
    }
}

/// Continues authentication, given what verifying the token returned.
pub fn load_subject(verified: Result<String, HttpError>) -> (r: (AuthState, Effect))
    ensures
        (r.0@, r.1@) == token_outcome(verified_view(verified)),
{
    match verified {
        Ok(subject) => (AuthState::Loading, Effect::FindUserById { id: subject }),
        Err(error) => (AuthState::Finished, Effect::Fail { error, clear_transient: false }),
    }
}

/// One step of the authentication of a request: verifies the session token
/// and asks for the user behind it.
pub fn auth(state: AuthState, event: Event, config: &AppConfig, moment: &Moment) -> (r: (
    AuthState,
    Effect,
))
    ensures
        (r.0@, r.1@) == auth_next(state@, event@, config.secret_bytes(), moment.now as int),
{
    match (state, event) {
        (AuthState::Received { token: None }, Event::Start) => (
            AuthState::Finished,
            Effect::fail(STATUS_UNAUTHORIZED, ErrorMessage::TokenNotProvided.to_string()),
        ),
        (AuthState::Received { token: Some(token) }, Event::Start) => {
            let verified = AuthService::decode_token_at(
                token.as_str(),
                config.jwt_secret.as_str().as_bytes(),
                moment.now,
            );
            load_subject(verified)
        },
        (AuthState::Loading, Event::UserFound { found: None }) => (
            AuthState::Finished,
            Effect::fail(STATUS_UNAUTHORIZED, ErrorMessage::UserNoLongerExist.to_string()),
        ),
        (AuthState::Loading, Event::UserFound { found: Some(user) }) => (
            AuthState::Finished,
            Effect::Reply { reply: Reply::Identity { user } },
        ),
        (AuthState::Loading, Event::StoreFailed { reason }) => (
            AuthState::Finished,
            Effect::store_failed(reason),
        ),
        _ => (AuthState::Finished, Effect::unexpected()),
    }
}

/// Nobody is let through by a role that the operation does not ask for:
/// whoever passes is identified and holds one of the required roles.
pub proof fn only_required_roles_pass(role: Option<UserRole>, required_roles: Seq<UserRole>)
    ensures
        access_verdict(role, required_roles) is Ok <==> (role is Some && required_roles.contains(
            role->Some_0,
        )),
        required_roles.len() == 0 ==> access_verdict(role, required_roles) is Err,
{
}

} // verus!
