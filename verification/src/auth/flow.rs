//! The vocabulary in which the core talks to its surroundings.
//!
//! The core never touches the user store, the mail system or an identity
//! provider. Each request is a small state machine: a step takes the state
//! and what has just happened (an [`Event`]) and answers with the next state
//! and what is to be done next (an [`Effect`]). The surroundings perform the
//! effect and come back with the next event, until the effect is a reply or
//! a failure.

use crate::auth::model::AuthProvider;
use crate::auth::service::{fresh_salt, salt_serves};
use crate::auth::verification::{fresh_token, TokenPurpose, TOKEN_LENGTH};
use crate::clock::{now_timestamp, CLOCK_LIMIT};
use crate::errors::{
    http_error, ErrorMessage, HttpError, HttpErrorView, OAuthError, OAuthErrorView,
    STATUS_INTERNAL_SERVER_ERROR,
};
use crate::mail::mails::{MailRequest, MailRequestView};
use crate::text::signed_decimal;
use crate::users::dto::{FilterUserDto, FilterUserDtoView};
use axum_extra::extract::cookie::{Cookie, SameSite};
use crate::users::model::{User, UserView};
use vstd::prelude::*;
use vstd::string::*;

verus! {

/// A cookie that a reply sets, as plain values.
#[derive(Debug)]
pub struct CookieSpec {
    pub name: String,
    pub value: String,
    pub path: String,
    /// Lifetime in seconds; zero asks the client to forget the cookie.
    pub max_age_seconds: i64,
    pub http_only: bool,
    pub secure: bool,
    /// Whether the cookie is restricted to same-site requests and top-level
    /// navigation.
    pub same_site_lax: bool,
}

/// The mathematical content of a [`CookieSpec`].
pub ghost struct CookieView {
    pub name: Seq<char>,
    pub value: Seq<char>,
    pub path: Seq<char>,
    pub max_age_seconds: i64,
    pub http_only: bool,
    pub secure: bool,
    pub same_site_lax: bool,
}

impl View for CookieSpec {
    type V = CookieView;

    open spec fn view(&self) -> CookieView {
        CookieView {
            name: self.name@,
            value: self.value@,
            path: self.path@,
            max_age_seconds: self.max_age_seconds,
            http_only: self.http_only,
            secure: self.secure,
            same_site_lax: self.same_site_lax,
        }
    }
}

/// An attribute of a cookie as it stands in the header: its text where the
/// attribute is set, nothing where it is not.
pub open spec fn attribute(set: bool, text: Seq<char>) -> Seq<char> {
    if set {
        text
    } else {
        Seq::empty()
    }
}

impl CookieView {
    /// The value of the `Set-Cookie` header that sets the cookie.
    pub open spec fn header(self) -> Seq<char> {
        self.name + "="@ + self.value + attribute(self.http_only, "; HttpOnly"@) + attribute(
            self.same_site_lax,
            "; SameSite=Lax"@,
        ) + attribute(self.secure, "; Secure"@) + "; Path="@ + self.path + "; Max-Age="@
            + signed_decimal(self.max_age_seconds as int)
    }
}

/// The `Display` text of a `cookie::Cookie` built from the cookie's values:
/// name and value joined by `=`, then the attributes that are set, each
/// after `; `, in the order `HttpOnly`, `SameSite`, `Secure`, `Path`,
/// `Max-Age` (in whole seconds). Nothing is percent-encoded.
#[verifier::external_body]
fn set_cookie_text(cookie: &CookieSpec) -> (r: String)
    ensures
        r@ == cookie@.header(),
{
    let mut built = Cookie::build((cookie.name.as_str(), cookie.value.as_str()))
        .path(cookie.path.as_str())
        .max_age(time::Duration::seconds(cookie.max_age_seconds))
        .http_only(cookie.http_only)
        .secure(cookie.secure)
        .build();
    built.set_same_site(cookie.same_site_lax.then_some(SameSite::Lax));
    built.to_string()
}

/// Lifetime of the cookies that carry the state of a delegated login, in
/// seconds: ten minutes.
pub const TRANSIENT_COOKIE_SECONDS: i64 = 600;

/// The lifetime of a session cookie: that of the session itself, in seconds,
/// or the longest lifetime that can be written where the product cannot.
pub open spec fn session_max_age(ttl_minutes: int) -> i64 {
    if 60 * ttl_minutes > i64::MAX {
        i64::MAX
    } else if 60 * ttl_minutes < i64::MIN {
        i64::MIN
    } else {
        (60 * ttl_minutes) as i64
    }
}

/// The cookie that carries a session token: readable by the server only,
/// and living as long as the token does. `hardened` adds the restriction to
/// secure transport and same-site requests.
pub open spec fn session_cookie(token: Seq<char>, ttl_minutes: int, hardened: bool) -> CookieView {
    CookieView {
        name: "token"@,
        value: token,
        path: "/"@,
        max_age_seconds: session_max_age(ttl_minutes),
        http_only: true,
        secure: hardened,
        same_site_lax: hardened,
    }
}

/// The cookie that keeps one value of an in-flight delegated login.
pub open spec fn transient_cookie(name: Seq<char>, value: Seq<char>) -> CookieView {
    CookieView {
        name,
        value,
        path: "/"@,
        max_age_seconds: TRANSIENT_COOKIE_SECONDS,
        http_only: true,
        secure: true,
        same_site_lax: true,
    }
}

/// The cookie that makes the client forget the cookie of that name.
pub open spec fn cleared_cookie(name: Seq<char>) -> CookieView {
    CookieView {
        name,
        value: Seq::empty(),
        path: "/"@,
        max_age_seconds: 0,
        http_only: false,
        secure: false,
        same_site_lax: false,
    }
}

impl CookieSpec {
    /// The cookie that carries a session token.
    pub fn session(token: &str, ttl_minutes: i64, hardened: bool) -> (r: CookieSpec)
        ensures
            r@ == session_cookie(token@, ttl_minutes as int, hardened),
    {
        let max_age_seconds = match ttl_minutes.checked_mul(60) {
            Some(s) => s,
            None => if ttl_minutes > 0 {
                i64::MAX
            } else {
                i64::MIN
            },
        };
        CookieSpec {
            name: String::from_str("token"),
            value: String::from_str(token),
            path: String::from_str("/"),
            max_age_seconds,
            http_only: true,
            secure: hardened,
            same_site_lax: hardened,
        }
    }

    /// The cookie that keeps one value of an in-flight delegated login.
    pub fn transient(name: &str, value: &str) -> (r: CookieSpec)
        ensures
            r@ == transient_cookie(name@, value@),
    {
        CookieSpec {
            name: String::from_str(name),
            value: String::from_str(value),
            path: String::from_str("/"),
            max_age_seconds: TRANSIENT_COOKIE_SECONDS,
            http_only: true,
            secure: true,
            same_site_lax: true,
        }
    }

    /// The cookie that makes the client forget the cookie of that name.
    pub fn cleared(name: &str) -> (r: CookieSpec)
        ensures
            r@ == cleared_cookie(name@),
    {
        let value = String::from_str("");
        proof {
            reveal_strlit("");
            assert(value@ =~= Seq::<char>::empty());
        }
        CookieSpec {
            name: String::from_str(name),
            value,
            path: String::from_str("/"),
            max_age_seconds: 0,
            http_only: false,
            secure: false,
            same_site_lax: false,
        }
    }
}

/// What an identity provider says of the person who logged in.
#[derive(Debug)]
pub struct ProviderUser {
    pub email: String,
    pub name: String,
    pub email_verified: bool,
}

/// The mathematical content of a [`ProviderUser`].
pub ghost struct ProviderUserView {
    pub email: Seq<char>,
    pub name: Seq<char>,
    pub email_verified: bool,
}

impl View for ProviderUser {
    type V = ProviderUserView;

    open spec fn view(&self) -> ProviderUserView {
        ProviderUserView {
            email: self.email@,
            name: self.name@,
            email_verified: self.email_verified,
        }
    }
}

/// A local account about to be stored: unverified, with its first token.
#[derive(Debug)]
pub struct NewUser {
    pub name: String,
    pub email: String,
    pub password_hash: String,
    pub verification_token: String,
    pub token_expires_at: i64,
}

/// The mathematical content of a [`NewUser`].
pub ghost struct NewUserView {
    pub name: Seq<char>,
    pub email: Seq<char>,
    pub password_hash: Seq<char>,
    pub verification_token: Seq<char>,
    pub token_expires_at: i64,
}

impl View for NewUser {
    type V = NewUserView;

    open spec fn view(&self) -> NewUserView {
        NewUserView {
            name: self.name@,
            email: self.email@,
            password_hash: self.password_hash@,
            verification_token: self.verification_token@,
            token_expires_at: self.token_expires_at,
        }
    }
}

/// What the core answers a request with when all went well.
#[derive(Debug)]
pub enum Reply {
    /// A sentence for the caller, under the given status.
    Message { status: u16, message: String },
    /// A session for a user who logged in with a password.
    Session { token: String, cookie: CookieSpec },
    /// A session for a user who confirmed an address; the caller is shown a
    /// page that says so.
    Verified { token: String, cookie: CookieSpec },
    /// The way to the identity provider, with the two cookies that keep the
    /// state of the login that has begun.
    Redirect { location: String, csrf_cookie: CookieSpec, pkce_cookie: CookieSpec },
    /// A session for a user who logged in through an identity provider; the
    /// cookies of the finished login are cleared.
    DelegatedSession {
        token: String,
        cookie: CookieSpec,
        clear_csrf: CookieSpec,
        clear_pkce: CookieSpec,
    },
    /// The user behind a session token.
    Identity { user: User },
    /// The public face of an account.
    Account { account: FilterUserDto },
}

/// The mathematical content of a [`Reply`].
pub ghost enum ReplyView {
    Message { status: u16, message: Seq<char> },
    Session { token: Seq<char>, cookie: CookieView },
    Verified { token: Seq<char>, cookie: CookieView },
    Redirect { location: Seq<char>, csrf_cookie: CookieView, pkce_cookie: CookieView },
    DelegatedSession {
        token: Seq<char>,
        cookie: CookieView,
        clear_csrf: CookieView,
        clear_pkce: CookieView,
    },
    Identity { user: UserView },
    Account { account: FilterUserDtoView },
}

impl View for Reply {
    type V = ReplyView;

    open spec fn view(&self) -> ReplyView {
        match self {
            Reply::Message { status, message } => ReplyView::Message {
                status: *status,
                message: message@,
            },
            Reply::Session { token, cookie } => ReplyView::Session {
                token: token@,
                cookie: cookie@,
            },
            Reply::Verified { token, cookie } => ReplyView::Verified {
                token: token@,
                cookie: cookie@,
            },
            Reply::Redirect { location, csrf_cookie, pkce_cookie } => ReplyView::Redirect {
                location: location@,
                csrf_cookie: csrf_cookie@,
                pkce_cookie: pkce_cookie@,
            },
            Reply::DelegatedSession {
                token,
                cookie,
                clear_csrf,
                clear_pkce,
            } => ReplyView::DelegatedSession {
                token: token@,
                cookie: cookie@,
                clear_csrf: clear_csrf@,
                clear_pkce: clear_pkce@,
            },
            Reply::Identity { user } => ReplyView::Identity { user: user@ },
            Reply::Account { account } => ReplyView::Account { account: account@ },
        }
    }
}

impl ReplyView {
    /// The values of the `Set-Cookie` headers that go out with the reply,
    /// in their order.
    pub open spec fn cookie_lines(self) -> Seq<Seq<char>> {
        match self {
            ReplyView::Session { token, cookie } => seq![cookie.header()],
            ReplyView::Verified { token, cookie } => seq![cookie.header()],
            ReplyView::Redirect { location, csrf_cookie, pkce_cookie } => seq![
                csrf_cookie.header(),
                pkce_cookie.header(),
            ],
            ReplyView::DelegatedSession { token, cookie, clear_csrf, clear_pkce } => seq![
                cookie.header(),
                clear_csrf.header(),
                clear_pkce.header(),
            ],
            _ => Seq::empty(),
        }
    }
}

/// The contents of a list of texts.
pub open spec fn lines_view(lines: Seq<String>) -> Seq<Seq<char>> {
    lines.map_values(|line: String| line@)
}

impl Reply {
    /// The values of the `Set-Cookie` headers that go out with the reply,
    /// in their order.
    pub fn cookie_headers(&self) -> (r: Vec<String>)
        ensures
            lines_view(r@) == self@.cookie_lines(),
    {
        let mut lines: Vec<String> = Vec::new();
        match self {
            Reply::Session { token, cookie } => {
                lines.push(set_cookie_text(cookie));
            },
            Reply::Verified { token, cookie } => {
                lines.push(set_cookie_text(cookie));
            },
            Reply::Redirect { location, csrf_cookie, pkce_cookie } => {
                lines.push(set_cookie_text(csrf_cookie));
                lines.push(set_cookie_text(pkce_cookie));
            },
            Reply::DelegatedSession { token, cookie, clear_csrf, clear_pkce } => {
                lines.push(set_cookie_text(cookie));
                lines.push(set_cookie_text(clear_csrf));
                lines.push(set_cookie_text(clear_pkce));
            },
            _ => {},
        }
        assert(lines_view(lines@) =~= self@.cookie_lines());
        lines
    }
}

/// What the core asks its surroundings to do next.
#[derive(Debug)]
pub enum Effect {
    FindUserByEmail { email: String },
    FindUserByToken { token: String },
    FindUserById { id: String },
    /// Store a new local account.
    InsertUser { user: NewUser },
    /// Store a new account that an identity provider vouches for: verified,
    /// without password and without token.
    InsertOAuthUser { name: String, email: String, provider: AuthProvider },
    /// Put a verification token and its expiry on a user record.
    SetVerificationToken { user_id: String, token: String, expires_at: i64 },
    UpdatePassword { user_id: String, password_hash: String },
    /// Clear the token on every record that holds it and mark the record
    /// verified, in one atomic step, and report how many records that were.
    /// For a token that confirms a new account the records are also lifted
    /// from the lowest role to the standard one; for a token that resets a
    /// password the role stays.
    ConsumeToken { token: String, purpose: TokenPurpose },
    SendMail { mail: MailRequest },
    /// Trade the authorization code for the user's profile at the provider.
    ExchangeCode { code: String, pkce_verifier: String },
    /// The request is done; answer it.
    Reply { reply: Reply },
    /// The request has failed; answer with the failure. `clear_transient`
    /// asks to clear the cookies of a delegated login along with it.
    Fail { error: HttpError, clear_transient: bool },
}

/// The mathematical content of an [`Effect`].
pub ghost enum EffectView {
    FindUserByEmail { email: Seq<char> },
    FindUserByToken { token: Seq<char> },
    FindUserById { id: Seq<char> },
    InsertUser { user: NewUserView },
    InsertOAuthUser { name: Seq<char>, email: Seq<char>, provider: AuthProvider },
    SetVerificationToken { user_id: Seq<char>, token: Seq<char>, expires_at: i64 },
    UpdatePassword { user_id: Seq<char>, password_hash: Seq<char> },
    ConsumeToken { token: Seq<char>, purpose: TokenPurpose },
    SendMail { mail: MailRequestView },
    ExchangeCode { code: Seq<char>, pkce_verifier: Seq<char> },
    Reply { reply: ReplyView },
    Fail { error: HttpErrorView, clear_transient: bool },
}

impl View for Effect {
    type V = EffectView;

    open spec fn view(&self) -> EffectView {
        match self {
            Effect::FindUserByEmail { email } => EffectView::FindUserByEmail { email: email@ },
            Effect::FindUserByToken { token } => EffectView::FindUserByToken { token: token@ },
            Effect::FindUserById { id } => EffectView::FindUserById { id: id@ },
            Effect::InsertUser { user } => EffectView::InsertUser { user: user@ },
            Effect::InsertOAuthUser { name, email, provider } => EffectView::InsertOAuthUser {
                name: name@,
                email: email@,
                provider: *provider,
            },
            Effect::SetVerificationToken {
                user_id,
                token,
                expires_at,
            } => EffectView::SetVerificationToken {
                user_id: user_id@,
                token: token@,
                expires_at: *expires_at,
            },
            Effect::UpdatePassword { user_id, password_hash } => EffectView::UpdatePassword {
                user_id: user_id@,
                password_hash: password_hash@,
            },
            Effect::ConsumeToken { token, purpose } => EffectView::ConsumeToken {
                token: token@,
                purpose: *purpose,
            },
            Effect::SendMail { mail } => EffectView::SendMail { mail: mail@ },
            Effect::ExchangeCode { code, pkce_verifier } => EffectView::ExchangeCode {
                code: code@,
                pkce_verifier: pkce_verifier@,
            },
            Effect::Reply { reply } => EffectView::Reply { reply: reply@ },
            Effect::Fail { error, clear_transient } => EffectView::Fail {
                error: error@,
                clear_transient: *clear_transient,
            },
        }
    }
}

impl EffectView {
    /// Whether the effect ends the request.
    pub open spec fn is_final(self) -> bool {
        self is Reply || self is Fail
    }

    /// Whether the effect reaches out to an identity provider.
    pub open spec fn calls_provider(self) -> bool {
        self is ExchangeCode
    }

    /// Whether the effect changes the user store.
    pub open spec fn writes_store(self) -> bool {
        self is InsertUser || self is InsertOAuthUser || self is SetVerificationToken
            || self is UpdatePassword || self is ConsumeToken
    }
}

/// What has just happened.
#[derive(Debug)]
pub enum Event {
    /// The request has arrived.
    Start,
    /// The user store has answered a lookup.
    UserFound { found: Option<User> },
    /// The user store has stored or changed a record and hands it back.
    UserStored { user: User },
    /// The user store has changed this many records.
    RowsAffected { count: u64 },
    /// The mail system has taken the mail.
    MailSent,
    /// The identity provider has vouched for this person.
    ProfileFetched { profile: ProviderUser },
    StoreFailed { reason: String },
    MailFailed { reason: String },
    ExchangeFailed { error: OAuthError },
}

/// The content of an optional user record.
pub open spec fn user_of(o: Option<User>) -> Option<UserView> {
    match o {
        Some(u) => Some(u@),
        None => None,
    }
}

/// The mathematical content of an [`Event`].
pub ghost enum EventView {
    Start,
    UserFound { found: Option<UserView> },
    UserStored { user: UserView },
    RowsAffected { count: u64 },
    MailSent,
    ProfileFetched { profile: ProviderUserView },
    StoreFailed { reason: Seq<char> },
    MailFailed { reason: Seq<char> },
    ExchangeFailed { error: OAuthErrorView },
}

impl View for Event {
    type V = EventView;

    open spec fn view(&self) -> EventView {
        match self {
            Event::Start => EventView::Start,
            Event::UserFound { found } => EventView::UserFound { found: user_of(*found) },
            Event::UserStored { user } => EventView::UserStored { user: user@ },
            Event::RowsAffected { count } => EventView::RowsAffected { count: *count },
            Event::MailSent => EventView::MailSent,
            Event::ProfileFetched { profile } => EventView::ProfileFetched { profile: profile@ },
            Event::StoreFailed { reason } => EventView::StoreFailed { reason: reason@ },
            Event::MailFailed { reason } => EventView::MailFailed { reason: reason@ },
            Event::ExchangeFailed { error } => EventView::ExchangeFailed { error: error@ },
        }
    }
}

/// What only the moment can tell: a reading of the clock, and fresh random
/// material for a salt and a token.
#[derive(Debug)]
pub struct Moment {
    /// Seconds since the Unix epoch.
    pub now: i64,
    /// A salt for hashing a password, in B64 text.
    pub salt: String,
    /// An identifier that nobody can guess.
    pub token: String,
}

/// The mathematical content of a [`Moment`].
pub ghost struct MomentView {
    pub now: i64,
    pub salt: Seq<char>,
    pub token: Seq<char>,
}

impl View for Moment {
    type V = MomentView;

    open spec fn view(&self) -> MomentView {
        MomentView { now: self.now, salt: self.salt@, token: self.token@ }
    }
}

impl Moment {
    /// Reads the clock and draws a fresh salt and a fresh token. The clock
    /// never reads a moment before the epoch, a fresh salt serves for
    /// hashing, and a fresh token is 36 characters long; nothing else is
    /// known of what comes back.
    pub fn observe() -> (r: Moment)
        ensures
            0 <= r.now < CLOCK_LIMIT,
            salt_serves(r.salt@),
            r.token@.len() == TOKEN_LENGTH,
    {
        let now = now_timestamp();
        let salt = fresh_salt();
        let token = fresh_token();
        Moment { now, salt, token }
    }
}

/// The failure that answers a request after the user store has failed.
pub open spec fn store_failure(reason: Seq<char>) -> EffectView {
    EffectView::Fail {
        error: http_error(STATUS_INTERNAL_SERVER_ERROR, reason),
        clear_transient: false,
    }
}

/// The failure that answers a request when something happens that the state
/// of the request does not expect.
pub open spec fn out_of_turn() -> EffectView {
    EffectView::Fail {
        error: http_error(STATUS_INTERNAL_SERVER_ERROR, ErrorMessage::ServerError.text()),
        clear_transient: false,
    }
}

/// The failure with the given status and sentence.
pub open spec fn failure(status: u16, message: Seq<char>) -> EffectView {
    EffectView::Fail { error: http_error(status, message), clear_transient: false }
}

impl EffectView {
    /// The values of the `Set-Cookie` headers that go out with the answer
    /// that an effect stands for: those of a reply; those that clear the
    /// cookies of a delegated login where a failure asks for it; none
    /// otherwise.
    pub open spec fn cookie_lines(self) -> Seq<Seq<char>> {
        match self {
            EffectView::Reply { reply } => reply.cookie_lines(),
            EffectView::Fail { error, clear_transient } => if clear_transient {
                seq![
                    cleared_cookie("oauth_csrf"@).header(),
                    cleared_cookie("oauth_pkce"@).header(),
                ]
            } else {
                Seq::empty()
            },
            _ => Seq::empty(),
        }
    }
}

impl Effect {
    /// The values of the `Set-Cookie` headers that go out with the answer
    /// that the effect stands for, in their order.
    pub fn cookie_headers(&self) -> (r: Vec<String>)
        ensures
            lines_view(r@) == self@.cookie_lines(),
    {
        match self {
            Effect::Reply { reply } => reply.cookie_headers(),
            Effect::Fail { error, clear_transient } => {
                let mut lines: Vec<String> = Vec::new();
                if *clear_transient {
                    lines.push(set_cookie_text(&CookieSpec::cleared("oauth_csrf")));
                    lines.push(set_cookie_text(&CookieSpec::cleared("oauth_pkce")));
                }
                assert(lines_view(lines@) =~= self@.cookie_lines());
                lines
            },
            _ => {
                let lines: Vec<String> = Vec::new();
                assert(lines_view(lines@) =~= self@.cookie_lines());
                lines
            },
        }
    }

    /// The failure with the given status and sentence.
    pub fn fail(status: u16, message: String) -> (r: Effect)
        ensures
            r@ == failure(status, message@),
    {
        Effect::Fail { error: HttpError::new(message, status), clear_transient: false }
    }

    /// The failure that answers a request after the user store has failed.
    pub fn store_failed(reason: String) -> (r: Effect)
        ensures
            r@ == store_failure(reason@),
    {
        Effect::Fail { error: HttpError::server_error(reason), clear_transient: false }
    }

    /// The failure that answers a request when something happens that the
    /// state of the request does not expect.
    pub fn unexpected() -> (r: Effect)
        ensures
            r@ == out_of_turn(),
    {
        Effect::Fail {
            error: HttpError::server_error(ErrorMessage::ServerError.to_string()),
            clear_transient: false,
        }
    }
}

} // verus!
