//! The requests of the authentication endpoints, each as a state machine
//! over the vocabulary of [`crate::auth::flow`].

use crate::auth::dto::{
    forgot_rules, reset_rules, verify_rules, ForgotPasswordRequestDto, ResetPasswordRequestDto,
    VerifyEmailQueryDto,
};
use crate::auth::flow::{
    failure, out_of_turn, session_cookie, store_failure, CookieSpec, Effect, EffectView, Event,
    EventView, Moment, MomentView, NewUser, NewUserView, Reply, ReplyView,
};
use crate::auth::flow::{cleared_cookie, transient_cookie};
use crate::auth::model::AuthProvider;
use crate::auth::oauth::github_oauth::GithubOAuth;
use crate::auth::oauth::google_oauth::GoogleOAuth;
use crate::auth::oauth::{start_view, AuthorizationStart, AuthorizationStartView};
use crate::auth::service::{
    argon2_phc, issued_view, salt_serves, AuthService, TokenError, TokenErrorView,
    ARGON2_MAX_PASSWORD_BYTES,
};
use crate::config::OAuthConfig;
use crate::users::model::text_of;
use crate::auth::verification::{
    check_not_expired, expires_at, expiry, expiry_check, issue_for, TokenPurpose,
};
use crate::config::AppConfig;
use crate::errors::{
    ErrorMessage, HttpError, STATUS_BAD_REQUEST, STATUS_CONFLICT, STATUS_INTERNAL_SERVER_ERROR,
    STATUS_UNAUTHORIZED,
};
use crate::mail::mails::{
    create_reset_link, link_to, reset_base_url, reset_mail, send_forgot_password_email,
    send_verification_email, send_welcome_email, verification_mail, welcome_mail,
};
use crate::text::join2;
use crate::users::dto::{login_rules, register_rules, LoginUserDto, RegisterUserDto};
use crate::users::model::{new_oauth_user, UserRole, UserView};
use crate::users::service::{
    consume_token, first_match, set_password, token_is_single_use, UserKeyView,
};
use crate::utils::validation::{render_report, report_text, well_formed_email};
use vstd::prelude::*;
use vstd::string::*;

verus! {

/// Status of a reply that reports success.
pub const STATUS_OK: u16 = 200;

/// Status of a reply that reports a newly created record.
pub const STATUS_CREATED: u16 = 201;

/// What a request ends with once a session was to be issued: the session
/// with its cookie, or the failure to issue it.
pub open spec fn session_outcome(issued: Result<Seq<char>, TokenErrorView>, ttl_minutes: int) -> EffectView {
    match issued {
        Ok(token) => EffectView::Reply {
            reply: ReplyView::Session {
                token,
                cookie: session_cookie(token, ttl_minutes, false),
            },
        },
        Err(e) => failure(STATUS_INTERNAL_SERVER_ERROR, e.text()),
    }
}

/// Ends a login, given what issuing the session returned.
pub fn session_reply(issued: Result<String, TokenError>, ttl_minutes: i64) -> (r: Effect)
    ensures
        r@ == session_outcome(issued_view(issued), ttl_minutes as int),
{
    match issued {
        Ok(token) => {
            let cookie = CookieSpec::session(token.as_str(), ttl_minutes, false);
            Effect::Reply { reply: Reply::Session { token, cookie } }
        },
        Err(e) => Effect::fail(STATUS_INTERNAL_SERVER_ERROR, e.to_string()),
    }
}

/// Where a login stands.
#[derive(Debug)]
pub enum LoginState {
    /// The request has arrived.
    Received { email: String, password: String },
    /// The user store is looking for the account.
    AwaitingUser { password: String },
    Finished,
}

/// The mathematical content of a [`LoginState`].
pub ghost enum LoginStateView {
    Received { email: Seq<char>, password: Seq<char> },
    AwaitingUser { password: Seq<char> },
    Finished,
}

impl View for LoginState {
    type V = LoginStateView;

    open spec fn view(&self) -> LoginStateView {
        match self {
            LoginState::Received { email, password } => LoginStateView::Received {
                email: email@,
                password: password@,
            },
            LoginState::AwaitingUser { password } => LoginStateView::AwaitingUser {
                password: password@,
            },
            LoginState::Finished => LoginStateView::Finished,
        }
    }
}

/// What a login ends with once the account was found, given the verdict on
/// the password and what issuing the session returned. A wrong password and
/// a password that cannot be checked at all are answered alike.
pub open spec fn login_outcome(
    compared: Result<bool, ErrorMessage>,
    issued: Result<Seq<char>, TokenErrorView>,
    ttl_minutes: int,
) -> EffectView {
    if compared == Ok::<bool, ErrorMessage>(true) {
        session_outcome(issued, ttl_minutes)
    } else {
        failure(STATUS_BAD_REQUEST, ErrorMessage::WrongCredentials.text())
    }
}

/// Whether the verdict on a password lets a login go on: only a password
/// that was compared and found to match does.
pub fn accepted(compared: Result<bool, ErrorMessage>) -> (r: bool)
    ensures
        r == (compared == Ok::<bool, ErrorMessage>(true)),
{
    match compared {
        Ok(matches) => matches,
        Err(_) => false,
    }
}

/// The next state and effect of a login.
///
/// An unknown address and a wrong password are answered with the same
/// failure, so that a caller cannot learn which addresses have accounts.
pub open spec fn login_next(
    state: LoginStateView,
    event: EventView,
    secret: Seq<u8>,
    ttl_minutes: int,
    now: int,
) -> (LoginStateView, EffectView) {
    match (state, event) {
        (LoginStateView::Received { email, password }, EventView::Start) => {
            let broken = login_rules(email, password, well_formed_email(email));
            if broken.len() > 0 {
                (LoginStateView::Finished, failure(STATUS_BAD_REQUEST, report_text(broken)))
            } else {
                (LoginStateView::AwaitingUser { password }, EffectView::FindUserByEmail { email })
            }
        },
        (LoginStateView::AwaitingUser { password }, EventView::UserFound { found: None }) => (
            LoginStateView::Finished,
            failure(STATUS_BAD_REQUEST, ErrorMessage::WrongCredentials.text()),
        ),
        (LoginStateView::AwaitingUser { password }, EventView::UserFound { found: Some(user) }) => (
            LoginStateView::Finished,
            login_outcome(
                AuthService::compare_spec(password, user.password),
                AuthService::issue_spec(user.id, secret, ttl_minutes, now),
                ttl_minutes,
            ),
        ),
        (LoginStateView::AwaitingUser { password }, EventView::StoreFailed { reason }) => (
            LoginStateView::Finished,
            store_failure(reason),
        ),
        _ => (LoginStateView::Finished, out_of_turn()),
    }
}

/// One step of a login: checks the request, asks for the account, compares
/// the password and issues the session.
pub fn login(state: LoginState, event: Event, config: &AppConfig, moment: &Moment) -> (r: (
    LoginState,
    Effect,
))
    ensures
        (r.0@, r.1@) == login_next(
            state@,
            event@,
            config.secret_bytes(),
            config.jwt_maxage as int,
            moment.now as int,
        ),
{
    match (state, event) {
        (LoginState::Received { email, password }, Event::Start) => {
            let body = LoginUserDto { email, password };
            match body.validate() {
                Err(broken) => (
                    LoginState::Finished,
                    Effect::fail(STATUS_BAD_REQUEST, render_report(&broken)),
                ),
                Ok(_) => (
                    LoginState::AwaitingUser { password: body.password },
                    Effect::FindUserByEmail { email: body.email },
                ),
            }
        },
        (LoginState::AwaitingUser { password }, Event::UserFound { found: None }) => (
            LoginState::Finished,
            Effect::fail(STATUS_BAD_REQUEST, ErrorMessage::WrongCredentials.to_string()),
        ),
        (LoginState::AwaitingUser { password }, Event::UserFound { found: Some(user) }) => {
            let compared = AuthService::compare(password.as_str(), user.password.as_str());
            let effect = if accepted(compared) {
                let issued = AuthService::create_token_at(
                    user.id.as_str(),
                    config.jwt_secret.as_str().as_bytes(),
                    config.jwt_maxage,
                    moment.now,
                );
                session_reply(issued, config.jwt_maxage)
            } else {
                Effect::fail(STATUS_BAD_REQUEST, ErrorMessage::WrongCredentials.to_string())
            };
            (LoginState::Finished, effect)
        },
        (LoginState::AwaitingUser { password }, Event::StoreFailed { reason }) => (
            LoginState::Finished,
            Effect::store_failed(reason),
        ),
        _ => (LoginState::Finished, Effect::unexpected()),
    }
}

/// Where a registration stands.
#[derive(Debug)]
pub enum RegisterState {
    /// The request has arrived.
    Received { name: String, email: String, password: String, password_confirm: String },
    /// The user store is looking for an account with the same address.
    CheckingEmail { name: String, email: String, password: String },
    /// The user store is storing the new account.
    Saving { token: String },
    /// The mail system is taking the verification mail.
    Mailing,
    Finished,
}

/// The mathematical content of a [`RegisterState`].
pub ghost enum RegisterStateView {
    Received { name: Seq<char>, email: Seq<char>, password: Seq<char>, password_confirm: Seq<char> },
    CheckingEmail { name: Seq<char>, email: Seq<char>, password: Seq<char> },
    Saving { token: Seq<char> },
    Mailing,
    Finished,
}

impl View for RegisterState {
    type V = RegisterStateView;

    open spec fn view(&self) -> RegisterStateView {
        match self {
            RegisterState::Received {
                name,
                email,
                password,
                password_confirm,
            } => RegisterStateView::Received {
                name: name@,
                email: email@,
                password: password@,
                password_confirm: password_confirm@,
            },
            RegisterState::CheckingEmail {
                name,
                email,
                password,
            } => RegisterStateView::CheckingEmail {
                name: name@,
                email: email@,
                password: password@,
            },
            RegisterState::Saving { token } => RegisterStateView::Saving { token: token@ },
            RegisterState::Mailing => RegisterStateView::Mailing,
            RegisterState::Finished => RegisterStateView::Finished,
        }
    }
}

/// The reply that carries a sentence for the caller.
pub open spec fn message_reply(status: u16, message: Seq<char>) -> EffectView {
    EffectView::Reply { reply: ReplyView::Message { status, message } }
}

/// The sentence that confirms a registration.
pub open spec fn registered_text() -> Seq<char> {
    "Registration successful! Please check your email to verify your account."@
}

/// What a registration does once the address was found free, given what
/// hashing the password returned: it stores the account, unverified and with
/// a token that lives for a day, or fails where no hash was made.
pub open spec fn register_store(
    name: Seq<char>,
    email: Seq<char>,
    hashed: Result<Seq<char>, ErrorMessage>,
    moment: MomentView,
) -> (RegisterStateView, EffectView) {
    match hashed {
        Err(e) => (RegisterStateView::Finished, failure(STATUS_INTERNAL_SERVER_ERROR, e.text())),
        Ok(password_hash) => (
            RegisterStateView::Saving { token: moment.token },
            EffectView::InsertUser {
                user: NewUserView {
                    name,
                    email,
                    password_hash,
                    verification_token: moment.token,
                    token_expires_at: expiry(moment.now as int, TokenPurpose::NewAccount) as i64,
                },
            },
        ),
    }
}

/// The next state and effect of a registration.
pub open spec fn register_next(state: RegisterStateView, event: EventView, moment: MomentView) -> (
    RegisterStateView,
    EffectView,
) {
    match (state, event) {
        (
            RegisterStateView::Received { name, email, password, password_confirm },
            EventView::Start,
        ) => {
            let broken = register_rules(
                name,
                email,
                password,
                password_confirm,
                well_formed_email(email),
            );
            if broken.len() > 0 {
                (RegisterStateView::Finished, failure(STATUS_BAD_REQUEST, report_text(broken)))
            } else {
                (
                    RegisterStateView::CheckingEmail { name, email, password },
                    EffectView::FindUserByEmail { email },
                )
            }
        },
        (
            RegisterStateView::CheckingEmail { name, email, password },
            EventView::UserFound { found: Some(user) },
        ) => (
            RegisterStateView::Finished,
            failure(STATUS_CONFLICT, ErrorMessage::EmailExist.text()),
        ),
        (
            RegisterStateView::CheckingEmail { name, email, password },
            EventView::UserFound { found: None },
        ) => register_store(
            name,
            email,
            AuthService::hash_outcome(password, argon2_phc(password, moment.salt)),
            moment,
        ),
        (
            RegisterStateView::CheckingEmail { name, email, password },
            EventView::StoreFailed { reason },
        ) => (RegisterStateView::Finished, store_failure(reason)),
        (RegisterStateView::Saving { token }, EventView::UserStored { user }) => (
            RegisterStateView::Mailing,
            EffectView::SendMail { mail: verification_mail(user.email, user.name, token) },
        ),
        (RegisterStateView::Saving { token }, EventView::StoreFailed { reason }) => (
            RegisterStateView::Finished,
            store_failure(reason),
        ),
        (RegisterStateView::Mailing, EventView::MailSent) => (
            RegisterStateView::Finished,
            message_reply(STATUS_CREATED, registered_text()),
        ),
        (RegisterStateView::Mailing, EventView::MailFailed { reason }) => (
            RegisterStateView::Finished,
            failure(STATUS_INTERNAL_SERVER_ERROR, "Failed to send verification email: "@ + reason),
        ),
        _ => (RegisterStateView::Finished, out_of_turn()),
    }
}

/// The content of what hashing a password returned.
pub open spec fn hashed_view(r: Result<String, ErrorMessage>) -> Result<Seq<char>, ErrorMessage> {
    match r {
        Ok(h) => Ok(h@),
        Err(e) => Err(e),
    }
}

/// Continues a registration whose address was found free, given what
/// hashing the password returned.
pub fn register_insert(
    name: String,
    email: String,
    hashed: Result<String, ErrorMessage>,
    moment: &Moment,
) -> (r: (RegisterState, Effect))
    ensures
        (r.0@, r.1@) == register_store(name@, email@, hashed_view(hashed), moment@),
{
    match hashed {
        Err(e) => (
            RegisterState::Finished,
            Effect::fail(STATUS_INTERNAL_SERVER_ERROR, e.to_string()),
        ),
        Ok(password_hash) => (
            RegisterState::Saving { token: moment.token.clone() },
            Effect::InsertUser {
                user: NewUser {
                    name,
                    email,
                    password_hash,
                    verification_token: moment.token.clone(),
                    token_expires_at: expires_at(moment.now, TokenPurpose::NewAccount),
                },
            },
        ),
    }
}

/// One step of a registration: checks the request, makes sure that the
/// address is free, stores the account and asks for the verification mail.
/// The account that is stored carries a password hash, so the record that
/// comes of it is well formed.
pub fn register(state: RegisterState, event: Event, moment: &Moment) -> (r: (
    RegisterState,
    Effect,
))
    ensures
        (r.0@, r.1@) == register_next(state@, event@, moment@),
        r.1@ matches EffectView::InsertUser { user } ==> user.password_hash.len() > 0,
{
    match (state, event) {
        (RegisterState::Received { name, email, password, password_confirm }, Event::Start) => {
            let body = RegisterUserDto { name, email, password, password_confirm };
            match body.validate() {
                Err(broken) => (
                    RegisterState::Finished,
                    Effect::fail(STATUS_BAD_REQUEST, render_report(&broken)),
                ),
                Ok(_) => {
                    let lookup = body.email.clone();
                    (
                        RegisterState::CheckingEmail {
                            name: body.name,
                            email: body.email,
                            password: body.password,
                        },
                        Effect::FindUserByEmail { email: lookup },
                    )
                },
            }
        },
        (
            RegisterState::CheckingEmail { name, email, password },
            Event::UserFound { found: Some(user) },
        ) => (
            RegisterState::Finished,
            Effect::fail(STATUS_CONFLICT, ErrorMessage::EmailExist.to_string()),
        ),
        (
            RegisterState::CheckingEmail { name, email, password },
            Event::UserFound { found: None },
        ) => {
            let hashed = AuthService::hash_password_with_salt(
                password.as_str(),
                moment.salt.as_str(),
            );
            register_insert(name, email, hashed, moment)
        },
        (RegisterState::CheckingEmail { name, email, password }, Event::StoreFailed { reason }) => (
            RegisterState::Finished,
            Effect::store_failed(reason),
        ),
        (RegisterState::Saving { token }, Event::UserStored { user }) => (
            RegisterState::Mailing,
            Effect::SendMail {
                mail: send_verification_email(
                    user.email.as_str(),
                    user.name.as_str(),
                    token.as_str(),
                ),
            },
        ),
        (RegisterState::Saving { token }, Event::StoreFailed { reason }) => (
            RegisterState::Finished,
            Effect::store_failed(reason),
        ),
        (RegisterState::Mailing, Event::MailSent) => (
            RegisterState::Finished,
            Effect::Reply {
                reply: Reply::Message {
                    status: STATUS_CREATED,
                    message: String::from_str(
                        "Registration successful! Please check your email to verify your account.",
                    ),
                },
            },
        ),
        (RegisterState::Mailing, Event::MailFailed { reason }) => (
            RegisterState::Finished,
            Effect::fail(
                STATUS_INTERNAL_SERVER_ERROR,
                join2("Failed to send verification email: ", reason.as_str()),
            ),
        ),
        _ => (RegisterState::Finished, Effect::unexpected()),
    }
}

/// Where the confirmation of an address stands.
#[derive(Debug)]
pub enum VerifyEmailState {
    /// The request has arrived.
    Received { token: String },
    /// The user store is looking for the record that holds the token.
    Resolving { token: String },
    /// The user store is consuming the token.
    Consuming { user_id: String, email: String, name: String },
    /// The mail system is taking the welcome mail.
    Welcoming { user_id: String },
    Finished,
}

/// The mathematical content of a [`VerifyEmailState`].
pub ghost enum VerifyEmailStateView {
    Received { token: Seq<char> },
    Resolving { token: Seq<char> },
    Consuming { user_id: Seq<char>, email: Seq<char>, name: Seq<char> },
    Welcoming { user_id: Seq<char> },
    Finished,
}

impl View for VerifyEmailState {
    type V = VerifyEmailStateView;

    open spec fn view(&self) -> VerifyEmailStateView {
        match self {
            VerifyEmailState::Received { token } => VerifyEmailStateView::Received {
                token: token@,
            },
            VerifyEmailState::Resolving { token } => VerifyEmailStateView::Resolving {
                token: token@,
            },
            VerifyEmailState::Consuming {
                user_id,
                email,
                name,
            } => VerifyEmailStateView::Consuming { user_id: user_id@, email: email@, name: name@ },
            VerifyEmailState::Welcoming { user_id } => VerifyEmailStateView::Welcoming {
                user_id: user_id@,
            },
            VerifyEmailState::Finished => VerifyEmailStateView::Finished,
        }
    }
}

/// What the confirmation of an address ends with once a session was to be
/// issued: the session with its cookie, or the failure to issue it.
pub open spec fn verified_outcome(issued: Result<Seq<char>, TokenErrorView>, ttl_minutes: int) -> EffectView {
    match issued {
        Ok(token) => EffectView::Reply {
            reply: ReplyView::Verified {
                token,
                cookie: session_cookie(token, ttl_minutes, false),
            },
        },
        Err(e) => failure(STATUS_INTERNAL_SERVER_ERROR, e.text()),
    }
}

/// Ends the confirmation of an address, given what issuing the session
/// returned.
pub fn verified_reply(issued: Result<String, TokenError>, ttl_minutes: i64) -> (r: Effect)
    ensures
        r@ == verified_outcome(issued_view(issued), ttl_minutes as int),
{
    match issued {
        Ok(token) => {
            let cookie = CookieSpec::session(token.as_str(), ttl_minutes, false);
            Effect::Reply { reply: Reply::Verified { token, cookie } }
        },
        Err(e) => Effect::fail(STATUS_INTERNAL_SERVER_ERROR, e.to_string()),
    }
}

/// The next state and effect of the confirmation of an address.
///
/// A token is used at most once: where the store reports that no record
/// held it any more, the request fails like one with an unknown token.
pub open spec fn verify_email_next(
    state: VerifyEmailStateView,
    event: EventView,
    secret: Seq<u8>,
    ttl_minutes: int,
    now: int,
) -> (VerifyEmailStateView, EffectView) {
    match (state, event) {
        (VerifyEmailStateView::Received { token }, EventView::Start) => {
            let broken = verify_rules(token);
            if broken.len() > 0 {
                (VerifyEmailStateView::Finished, failure(STATUS_BAD_REQUEST, report_text(broken)))
            } else {
                (
                    VerifyEmailStateView::Resolving { token },
                    EffectView::FindUserByToken { token },
                )
            }
        },
        (VerifyEmailStateView::Resolving { token }, EventView::UserFound { found: None }) => (
            VerifyEmailStateView::Finished,
            failure(STATUS_UNAUTHORIZED, ErrorMessage::InvalidToken.text()),
        ),
        (
            VerifyEmailStateView::Resolving { token },
            EventView::UserFound { found: Some(user) },
        ) => match expiry_check(user.token_expires_at, now) {
            Err(error) => (
                VerifyEmailStateView::Finished,
                EffectView::Fail { error, clear_transient: false },
            ),
            Ok(_) => (
                VerifyEmailStateView::Consuming {
                    user_id: user.id,
                    email: user.email,
                    name: user.name,
                },
                EffectView::ConsumeToken { token, purpose: TokenPurpose::NewAccount },
            ),
        },
        (VerifyEmailStateView::Resolving { token }, EventView::StoreFailed { reason }) => (
            VerifyEmailStateView::Finished,
            store_failure(reason),
        ),
        (
            VerifyEmailStateView::Consuming { user_id, email, name },
            EventView::RowsAffected { count },
        ) => if count == 0 {
            (
                VerifyEmailStateView::Finished,
                failure(STATUS_UNAUTHORIZED, ErrorMessage::InvalidToken.text()),
            )
        } else {
            (
                VerifyEmailStateView::Welcoming { user_id },
                EffectView::SendMail { mail: welcome_mail(email, name) },
            )
        },
        (
            VerifyEmailStateView::Consuming { user_id, email, name },
            EventView::StoreFailed { reason },
        ) => (VerifyEmailStateView::Finished, store_failure(reason)),
        (VerifyEmailStateView::Welcoming { user_id }, EventView::MailSent) => (
            VerifyEmailStateView::Finished,
            verified_outcome(
                AuthService::issue_spec(user_id, secret, ttl_minutes, now),
                ttl_minutes,
            ),
        ),
        (VerifyEmailStateView::Welcoming { user_id }, EventView::MailFailed { reason }) => (
            VerifyEmailStateView::Finished,
            failure(STATUS_INTERNAL_SERVER_ERROR, "Failed to send welcome email: "@ + reason),
        ),
        _ => (VerifyEmailStateView::Finished, out_of_turn()),
    }
}

/// One step of the confirmation of an address: finds the record that holds
/// the token, checks its expiry, consumes the token, asks for the welcome
/// mail and issues a session.
pub fn verify_email(
    state: VerifyEmailState,
    event: Event,
    config: &AppConfig,
    moment: &Moment,
) -> (r: (VerifyEmailState, Effect))
    ensures
        (r.0@, r.1@) == verify_email_next(
            state@,
            event@,
            config.secret_bytes(),
            config.jwt_maxage as int,
            moment.now as int,
        ),
{
    match (state, event) {
        (VerifyEmailState::Received { token }, Event::Start) => {
            let query = VerifyEmailQueryDto { token };
            match query.validate() {
                Err(broken) => (
                    VerifyEmailState::Finished,
                    Effect::fail(STATUS_BAD_REQUEST, render_report(&broken)),
                ),
                Ok(_) => {
                    let lookup = query.token.clone();
                    (
                        VerifyEmailState::Resolving { token: query.token },
                        Effect::FindUserByToken { token: lookup },
                    )
                },
            }
        },
        (VerifyEmailState::Resolving { token }, Event::UserFound { found: None }) => (
            VerifyEmailState::Finished,
            Effect::fail(STATUS_UNAUTHORIZED, ErrorMessage::InvalidToken.to_string()),
        ),
        (VerifyEmailState::Resolving { token }, Event::UserFound { found: Some(user) }) => {
            match check_not_expired(&user, moment.now) {
                Err(error) => (
                    VerifyEmailState::Finished,
                    Effect::Fail { error, clear_transient: false },
                ),
                Ok(_) => (
                    VerifyEmailState::Consuming {
                        user_id: user.id,
                        email: user.email,
                        name: user.name,
                    },
                    Effect::ConsumeToken { token, purpose: TokenPurpose::NewAccount },
                ),
            }
        },
        (VerifyEmailState::Resolving { token }, Event::StoreFailed { reason }) => (
            VerifyEmailState::Finished,
            Effect::store_failed(reason),
        ),
        (VerifyEmailState::Consuming { user_id, email, name }, Event::RowsAffected { count }) => {
            if count == 0 {
                (
                    VerifyEmailState::Finished,
                    Effect::fail(STATUS_UNAUTHORIZED, ErrorMessage::InvalidToken.to_string()),
                )
            } else {
                (
                    VerifyEmailState::Welcoming { user_id },
                    Effect::SendMail { mail: send_welcome_email(email.as_str(), name.as_str()) },
                )
            }
        },
        (VerifyEmailState::Consuming { user_id, email, name }, Event::StoreFailed { reason }) => (
            VerifyEmailState::Finished,
            Effect::store_failed(reason),
        ),
        (VerifyEmailState::Welcoming { user_id }, Event::MailSent) => {
            let issued = AuthService::create_token_at(
                user_id.as_str(),
                config.jwt_secret.as_str().as_bytes(),
                config.jwt_maxage,
                moment.now,
            );
            (VerifyEmailState::Finished, verified_reply(issued, config.jwt_maxage))
        },
        (VerifyEmailState::Welcoming { user_id }, Event::MailFailed { reason }) => (
            VerifyEmailState::Finished,
            Effect::fail(
                STATUS_INTERNAL_SERVER_ERROR,
                join2("Failed to send welcome email: ", reason.as_str()),
            ),
        ),
        _ => (VerifyEmailState::Finished, Effect::unexpected()),
    }
}

/// A verification token works once: after the token was consumed, the
/// lookup of a second confirmation with the same token finds no record, and
/// the confirmation fails as one with a token that was never issued.
pub proof fn second_confirmation_is_rejected(
    users: Seq<UserView>,
    token: Seq<char>,
    consumed_at: i64,
    secret: Seq<u8>,
    ttl_minutes: int,
    now: int,
)
    ensures
        ({
            let after = consume_token(users, token, TokenPurpose::NewAccount, consumed_at);
            let found = first_match(after, UserKeyView::Token(token));
            &&& found is None
            &&& verify_email_next(
                VerifyEmailStateView::Resolving { token },
                EventView::UserFound { found },
                secret,
                ttl_minutes,
                now,
            ) == (
                VerifyEmailStateView::Finished,
                failure(STATUS_UNAUTHORIZED, ErrorMessage::InvalidToken.text()),
            )
        }),
{
    token_is_single_use(
        users,
        token,
        TokenPurpose::NewAccount,
        TokenPurpose::NewAccount,
        consumed_at,
        consumed_at,
    );
}

/// Where a request for a reset link stands.
#[derive(Debug)]
pub enum ForgotPasswordState {
    /// The request has arrived.
    Received { email: String },
    /// The user store is looking for the account.
    Resolving,
    /// The user store is putting the token on the record.
    Granting { email: String, name: String, token: String },
    /// The mail system is taking the mail with the link.
    Mailing,
    Finished,
}

/// The mathematical content of a [`ForgotPasswordState`].
pub ghost enum ForgotPasswordStateView {
    Received { email: Seq<char> },
    Resolving,
    Granting { email: Seq<char>, name: Seq<char>, token: Seq<char> },
    Mailing,
    Finished,
}

impl View for ForgotPasswordState {
    type V = ForgotPasswordStateView;

    open spec fn view(&self) -> ForgotPasswordStateView {
        match self {
            ForgotPasswordState::Received { email } => ForgotPasswordStateView::Received {
                email: email@,
            },
            ForgotPasswordState::Resolving => ForgotPasswordStateView::Resolving,
            ForgotPasswordState::Granting {
                email,
                name,
                token,
            } => ForgotPasswordStateView::Granting { email: email@, name: name@, token: token@ },
            ForgotPasswordState::Mailing => ForgotPasswordStateView::Mailing,
            ForgotPasswordState::Finished => ForgotPasswordStateView::Finished,
        }
    }
}

/// The sentence that confirms that a reset link is on its way.
pub open spec fn reset_link_sent_text() -> Seq<char> {
    "Password reset link has been sent to your email."@
}

/// The next state and effect of a request for a reset link. The token that
/// is put on the record lives for half an hour.
pub open spec fn forgot_password_next(
    state: ForgotPasswordStateView,
    event: EventView,
    moment: MomentView,
) -> (ForgotPasswordStateView, EffectView) {
    match (state, event) {
        (ForgotPasswordStateView::Received { email }, EventView::Start) => {
            let broken = forgot_rules(email, well_formed_email(email));
            if broken.len() > 0 {
                (
                    ForgotPasswordStateView::Finished,
                    failure(STATUS_BAD_REQUEST, report_text(broken)),
                )
            } else {
                (ForgotPasswordStateView::Resolving, EffectView::FindUserByEmail { email })
            }
        },
        (ForgotPasswordStateView::Resolving, EventView::UserFound { found: None }) => (
            ForgotPasswordStateView::Finished,
            failure(STATUS_BAD_REQUEST, "Email not found!"@),
        ),
        (ForgotPasswordStateView::Resolving, EventView::UserFound { found: Some(user) }) => (
            ForgotPasswordStateView::Granting {
                email: user.email,
                name: user.name,
                token: moment.token,
            },
            EffectView::SetVerificationToken {
                user_id: user.id,
                token: moment.token,
                expires_at: expiry(moment.now as int, TokenPurpose::PasswordReset) as i64,
            },
        ),
        (ForgotPasswordStateView::Resolving, EventView::StoreFailed { reason }) => (
            ForgotPasswordStateView::Finished,
            store_failure(reason),
        ),
        (
            ForgotPasswordStateView::Granting { email, name, token },
            EventView::RowsAffected { count },
        ) => (
            ForgotPasswordStateView::Mailing,
            EffectView::SendMail {
                mail: reset_mail(email, link_to(reset_base_url(), token), name),
            },
        ),
        (
            ForgotPasswordStateView::Granting { email, name, token },
            EventView::StoreFailed { reason },
        ) => (ForgotPasswordStateView::Finished, store_failure(reason)),
        (ForgotPasswordStateView::Mailing, EventView::MailSent) => (
            ForgotPasswordStateView::Finished,
            message_reply(STATUS_OK, reset_link_sent_text()),
        ),
        (ForgotPasswordStateView::Mailing, EventView::MailFailed { reason }) => (
            ForgotPasswordStateView::Finished,
            failure(
                STATUS_INTERNAL_SERVER_ERROR,
                "Failed to send reset password email: "@ + reason,
            ),
        ),
        _ => (ForgotPasswordStateView::Finished, out_of_turn()),
    }
}

/// One step of a request for a reset link: finds the account, puts a fresh
/// token on it and asks for the mail that carries the link.
pub fn forgot_password(state: ForgotPasswordState, event: Event, moment: &Moment) -> (r: (
    ForgotPasswordState,
    Effect,
))
    ensures
        (r.0@, r.1@) == forgot_password_next(state@, event@, moment@),
{
    match (state, event) {
        (ForgotPasswordState::Received { email }, Event::Start) => {
            let body = ForgotPasswordRequestDto { email };
            match body.validate() {
                Err(broken) => (
                    ForgotPasswordState::Finished,
                    Effect::fail(STATUS_BAD_REQUEST, render_report(&broken)),
                ),
                Ok(_) => (
                    ForgotPasswordState::Resolving,
                    Effect::FindUserByEmail { email: body.email },
                ),
            }
        },
        (ForgotPasswordState::Resolving, Event::UserFound { found: None }) => (
            ForgotPasswordState::Finished,
            Effect::fail(STATUS_BAD_REQUEST, String::from_str("Email not found!")),
        ),
        (ForgotPasswordState::Resolving, Event::UserFound { found: Some(user) }) => (
            ForgotPasswordState::Granting {
                email: user.email,
                name: user.name,
                token: moment.token.clone(),
            },
            issue_for(user.id, TokenPurpose::PasswordReset, moment),
        ),
        (ForgotPasswordState::Resolving, Event::StoreFailed { reason }) => (
            ForgotPasswordState::Finished,
            Effect::store_failed(reason),
        ),
        (ForgotPasswordState::Granting { email, name, token }, Event::RowsAffected { count }) => {
            let reset_link = create_reset_link(token.as_str());
            (
                ForgotPasswordState::Mailing,
                Effect::SendMail {
                    mail: send_forgot_password_email(
                        email.as_str(),
                        reset_link.as_str(),
                        name.as_str(),
                    ),
                },
            )
        },
        (ForgotPasswordState::Granting { email, name, token }, Event::StoreFailed { reason }) => (
            ForgotPasswordState::Finished,
            Effect::store_failed(reason),
        ),
        (ForgotPasswordState::Mailing, Event::MailSent) => (
            ForgotPasswordState::Finished,
            Effect::Reply {
                reply: Reply::Message {
                    status: STATUS_OK,
                    message: String::from_str("Password reset link has been sent to your email."),
                },
            },
        ),
        (ForgotPasswordState::Mailing, Event::MailFailed { reason }) => (
            ForgotPasswordState::Finished,
            Effect::fail(
                STATUS_INTERNAL_SERVER_ERROR,
                join2("Failed to send reset password email: ", reason.as_str()),
            ),
        ),
        _ => (ForgotPasswordState::Finished, Effect::unexpected()),
    }
}

/// Where a password reset stands.
#[derive(Debug)]
pub enum ResetPasswordState {
    /// The request has arrived.
    Received { token: String, new_password: String, new_password_confirm: String },
    /// The user store is looking for the record that holds the token.
    Resolving { token: String, new_password: String },
    /// The user store is consuming the token.
    Consuming { user_id: String, password_hash: String },
    /// The user store is storing the new hash.
    Updating,
    Finished,
}

/// The mathematical content of a [`ResetPasswordState`].
pub ghost enum ResetPasswordStateView {
    Received { token: Seq<char>, new_password: Seq<char>, new_password_confirm: Seq<char> },
    Resolving { token: Seq<char>, new_password: Seq<char> },
    Consuming { user_id: Seq<char>, password_hash: Seq<char> },
    Updating,
    Finished,
}

impl View for ResetPasswordState {
    type V = ResetPasswordStateView;

    open spec fn view(&self) -> ResetPasswordStateView {
        match self {
            ResetPasswordState::Received {
                token,
                new_password,
                new_password_confirm,
            } => ResetPasswordStateView::Received {
                token: token@,
                new_password: new_password@,
                new_password_confirm: new_password_confirm@,
            },
            ResetPasswordState::Resolving {
                token,
                new_password,
            } => ResetPasswordStateView::Resolving {
                token: token@,
                new_password: new_password@,
            },
            ResetPasswordState::Consuming {
                user_id,
                password_hash,
            } => ResetPasswordStateView::Consuming {
                user_id: user_id@,
                password_hash: password_hash@,
            },
            ResetPasswordState::Updating => ResetPasswordStateView::Updating,
            ResetPasswordState::Finished => ResetPasswordStateView::Finished,
        }
    }
}

/// The sentence that confirms a password reset.
pub open spec fn password_reset_text() -> Seq<char> {
    "Password has been successfully reset."@
}

/// The sentence that refuses a reset whose token is unknown or was used.
pub open spec fn reset_refused_text() -> Seq<char> {
    "Invalid or expired token"@
}

/// What a password reset does once the token was found valid, given what
/// hashing the new password returned: it consumes the token, as one that
/// resets a password, and keeps the hash for the step after.
pub open spec fn reset_consume(
    token: Seq<char>,
    user_id: Seq<char>,
    hashed: Result<Seq<char>, ErrorMessage>,
) -> (ResetPasswordStateView, EffectView) {
    match hashed {
        Err(e) => (
            ResetPasswordStateView::Finished,
            failure(STATUS_INTERNAL_SERVER_ERROR, e.text()),
        ),
        Ok(password_hash) => (
            ResetPasswordStateView::Consuming { user_id, password_hash },
            EffectView::ConsumeToken { token, purpose: TokenPurpose::PasswordReset },
        ),
    }
}

/// The next state and effect of a password reset.
///
/// The token is consumed before the new hash is stored, and the hash is
/// stored only where the consumption touched a record: of two resets that
/// race for one token at most one stores its password; the other fails as
/// one with an unknown token.
pub open spec fn reset_password_next(
    state: ResetPasswordStateView,
    event: EventView,
    moment: MomentView,
) -> (ResetPasswordStateView, EffectView) {
    match (state, event) {
        (
            ResetPasswordStateView::Received { token, new_password, new_password_confirm },
            EventView::Start,
        ) => {
            let broken = reset_rules(token, new_password, new_password_confirm);
            if broken.len() > 0 {
                (
                    ResetPasswordStateView::Finished,
                    failure(STATUS_BAD_REQUEST, report_text(broken)),
                )
            } else {
                (
                    ResetPasswordStateView::Resolving { token, new_password },
                    EffectView::FindUserByToken { token },
                )
            }
        },
        (
            ResetPasswordStateView::Resolving { token, new_password },
            EventView::UserFound { found: None },
        ) => (
            ResetPasswordStateView::Finished,
            failure(STATUS_BAD_REQUEST, reset_refused_text()),
        ),
        (
            ResetPasswordStateView::Resolving { token, new_password },
            EventView::UserFound { found: Some(user) },
        ) => match expiry_check(user.token_expires_at, moment.now as int) {
            Err(error) => (
                ResetPasswordStateView::Finished,
                EffectView::Fail { error, clear_transient: false },
            ),
            Ok(_) => reset_consume(
                token,
                user.id,
                AuthService::hash_outcome(new_password, argon2_phc(new_password, moment.salt)),
            ),
        },
        (
            ResetPasswordStateView::Resolving { token, new_password },
            EventView::StoreFailed { reason },
        ) => (ResetPasswordStateView::Finished, store_failure(reason)),
        (
            ResetPasswordStateView::Consuming { user_id, password_hash },
            EventView::RowsAffected { count },
        ) => if count == 0 {
            (
                ResetPasswordStateView::Finished,
                failure(STATUS_BAD_REQUEST, reset_refused_text()),
            )
        } else {
            (
                ResetPasswordStateView::Updating,
                EffectView::UpdatePassword { user_id, password_hash },
            )
        },
        (
            ResetPasswordStateView::Consuming { user_id, password_hash },
            EventView::StoreFailed { reason },
        ) => (ResetPasswordStateView::Finished, store_failure(reason)),
        (ResetPasswordStateView::Updating, EventView::UserStored { user }) => (
            ResetPasswordStateView::Finished,
            message_reply(STATUS_OK, password_reset_text()),
        ),
        (ResetPasswordStateView::Updating, EventView::StoreFailed { reason }) => (
            ResetPasswordStateView::Finished,
            store_failure(reason),
        ),
        _ => (ResetPasswordStateView::Finished, out_of_turn()),
    }
}

/// Continues a password reset whose token was found valid, given what
/// hashing the new password returned.
pub fn reset_claim(token: String, user_id: String, hashed: Result<String, ErrorMessage>) -> (r: (
    ResetPasswordState,
    Effect,
))
    ensures
        (r.0@, r.1@) == reset_consume(token@, user_id@, hashed_view(hashed)),
{
    match hashed {
        Err(e) => (
            ResetPasswordState::Finished,
            Effect::fail(STATUS_INTERNAL_SERVER_ERROR, e.to_string()),
        ),
        Ok(password_hash) => (
            ResetPasswordState::Consuming { user_id, password_hash },
            Effect::ConsumeToken { token, purpose: TokenPurpose::PasswordReset },
        ),
    }
}

/// One step of a password reset: finds the record that holds the token,
/// checks its expiry, hashes the new password, consumes the token and, where
/// that touched a record, stores the hash.
pub fn reset_password(state: ResetPasswordState, event: Event, moment: &Moment) -> (r: (
    ResetPasswordState,
    Effect,
))
    ensures
        (r.0@, r.1@) == reset_password_next(state@, event@, moment@),
{
    match (state, event) {
        (
            ResetPasswordState::Received { token, new_password, new_password_confirm },
            Event::Start,
        ) => {
            let body = ResetPasswordRequestDto { token, new_password, new_password_confirm };
            match body.validate() {
                Err(broken) => (
                    ResetPasswordState::Finished,
                    Effect::fail(STATUS_BAD_REQUEST, render_report(&broken)),
                ),
                Ok(_) => {
                    let lookup = body.token.clone();
                    (
                        ResetPasswordState::Resolving {
                            token: body.token,
                            new_password: body.new_password,
                        },
                        Effect::FindUserByToken { token: lookup },
                    )
                },
            }
        },
        (
            ResetPasswordState::Resolving { token, new_password },
            Event::UserFound { found: None },
        ) => (
            ResetPasswordState::Finished,
            Effect::fail(STATUS_BAD_REQUEST, String::from_str("Invalid or expired token")),
        ),
        (
            ResetPasswordState::Resolving { token, new_password },
            Event::UserFound { found: Some(user) },
        ) => {
            match check_not_expired(&user, moment.now) {
                Err(error) => (
                    ResetPasswordState::Finished,
                    Effect::Fail { error, clear_transient: false },
                ),
                Ok(_) => {
                    let hashed = AuthService::hash_password_with_salt(
                        new_password.as_str(),
                        moment.salt.as_str(),
                    );
                    reset_claim(token, user.id, hashed)
                },
            }
        },
        (
            ResetPasswordState::Resolving { token, new_password },
            Event::StoreFailed { reason },
        ) => (ResetPasswordState::Finished, Effect::store_failed(reason)),
        (
            ResetPasswordState::Consuming { user_id, password_hash },
            Event::RowsAffected { count },
        ) => {
            if count == 0 {
                (
                    ResetPasswordState::Finished,
                    Effect::fail(STATUS_BAD_REQUEST, String::from_str("Invalid or expired token")),
                )
            } else {
                (
                    ResetPasswordState::Updating,
                    Effect::UpdatePassword { user_id, password_hash },
                )
            }
        },
        (
            ResetPasswordState::Consuming { user_id, password_hash },
            Event::StoreFailed { reason },
        ) => (ResetPasswordState::Finished, Effect::store_failed(reason)),
        (ResetPasswordState::Updating, Event::UserStored { user }) => (
            ResetPasswordState::Finished,
            Effect::Reply {
                reply: Reply::Message {
                    status: STATUS_OK,
                    message: String::from_str("Password has been successfully reset."),
                },
            },
        ),
        (ResetPasswordState::Updating, Event::StoreFailed { reason }) => (
            ResetPasswordState::Finished,
            Effect::store_failed(reason),
        ),
        _ => (ResetPasswordState::Finished, Effect::unexpected()),
    }
}

/// A password reset never touches the role: an administrator stays one.
/// The record that held the token loses token and expiry and counts as
/// verified from then on; the hash is stored on the record with the
/// identifier alone; identifier, name, address, provider and time of
/// creation of every record stay. A record that did not hold the token
/// keeps its token, its expiry and its verification.
pub proof fn password_reset_keeps_the_role(
    users: Seq<UserView>,
    token: Seq<char>,
    user_id: Seq<char>,
    password_hash: Seq<char>,
    i: int,
    consumed_at: i64,
    stored_at: i64,
)
    requires
        0 <= i < users.len(),
    ensures
        ({
            let consumed = consume_token(users, token, TokenPurpose::PasswordReset, consumed_at);
            let after = set_password(consumed, user_id, password_hash, stored_at);
            &&& after.len() == users.len()
            &&& after[i].role == users[i].role
            &&& after[i].id == users[i].id
            &&& after[i].name == users[i].name
            &&& after[i].email == users[i].email
            &&& after[i].provider == users[i].provider
            &&& after[i].created_at == users[i].created_at
            &&& after[i].password == if users[i].id == user_id {
                password_hash
            } else {
                users[i].password
            }
            &&& users[i].verification_token == Some(token) ==> after[i].verified
                && after[i].verification_token is None && after[i].token_expires_at is None
            &&& users[i].verification_token != Some(token) ==> after[i].verified
                == users[i].verified && after[i].verification_token == users[i].verification_token
                && after[i].token_expires_at == users[i].token_expires_at
        }),
{
}

/// A reset token works once. After the token was consumed, the lookup of a
/// second reset with the same token finds no record, and the reset fails as
/// one with an unknown token. And where two resets found the record before
/// either consumed the token, the one whose consumption touched no record
/// stores no password and fails in the same way.
pub proof fn second_reset_is_rejected(
    users: Seq<UserView>,
    token: Seq<char>,
    new_password: Seq<char>,
    user_id: Seq<char>,
    password_hash: Seq<char>,
    consumed_at: i64,
    moment: MomentView,
)
    ensures
        ({
            let after = consume_token(users, token, TokenPurpose::PasswordReset, consumed_at);
            let found = first_match(after, UserKeyView::Token(token));
            let refused = (
                ResetPasswordStateView::Finished,
                failure(STATUS_BAD_REQUEST, reset_refused_text()),
            );
            &&& found is None
            &&& reset_password_next(
                ResetPasswordStateView::Resolving { token, new_password },
                EventView::UserFound { found },
                moment,
            ) == refused
            &&& reset_password_next(
                ResetPasswordStateView::Consuming { user_id, password_hash },
                EventView::RowsAffected { count: 0 },
                moment,
            ) == refused
        }),
{
    token_is_single_use(
        users,
        token,
        TokenPurpose::PasswordReset,
        TokenPurpose::PasswordReset,
        consumed_at,
        consumed_at,
    );
}

/// After a reset the account answers to the new hash alone: a login with
/// whatever password is granted a session exactly where that password
/// compares as a match with the hash that the reset stored, and is answered
/// as wrong credentials in every other case. The hash that stood before
/// plays no part.
pub proof fn login_after_reset_goes_by_the_new_hash(
    user: UserView,
    new_hash: Seq<char>,
    password: Seq<char>,
    stored_at: i64,
    secret: Seq<u8>,
    ttl_minutes: int,
    now: int,
)
    ensures
        ({
            let after = user.with_password(new_hash, stored_at);
            let next = login_next(
                LoginStateView::AwaitingUser { password },
                EventView::UserFound { found: Some(after) },
                secret,
                ttl_minutes,
                now,
            );
            &&& next.0 == LoginStateView::Finished
            &&& next.1 == login_outcome(
                AuthService::compare_spec(password, new_hash),
                AuthService::issue_spec(user.id, secret, ttl_minutes, now),
                ttl_minutes,
            )
            &&& AuthService::compare_spec(password, new_hash) != Ok::<bool, ErrorMessage>(true)
                ==> next.1 == failure(STATUS_BAD_REQUEST, ErrorMessage::WrongCredentials.text())
        }),
{
}

/// With a salt that serves, as every salt is that a moment was observed
/// with, hashing stands in the way of no acceptable password: a
/// registration whose address is free goes on to store the account, and a
/// reset whose token is valid goes on to consume it.
pub proof fn serving_salt_hashes_every_acceptable_password(
    name: Seq<char>,
    email: Seq<char>,
    token: Seq<char>,
    password: Seq<char>,
    user: UserView,
    moment: MomentView,
)
    requires
        salt_serves(moment.salt),
        AuthService::password_check(password) is Ok,
    ensures
        register_next(
            RegisterStateView::CheckingEmail { name, email, password },
            EventView::UserFound { found: None },
            moment,
        ).1 is InsertUser,
        expiry_check(user.token_expires_at, moment.now as int) is Ok ==> reset_password_next(
            ResetPasswordStateView::Resolving { token, new_password: password },
            EventView::UserFound { found: Some(user) },
            moment,
        ).1 == (EffectView::ConsumeToken { token, purpose: TokenPurpose::PasswordReset }),
{
    assert(4 * password.len() <= ARGON2_MAX_PASSWORD_BYTES);
    assert(argon2_phc(password, moment.salt) is Some);
}

/// A confirmation lifts a new account out of the lowest role and leaves
/// every other role alone: an administrator who confirms an address stays
/// one.
pub proof fn confirmation_promotes_only_the_lowest_role(user: UserView, now: i64)
    ensures
        ({
            let after = user.consumed(TokenPurpose::NewAccount, now);
            &&& after.verified
            &&& user.role == UserRole::Guest ==> after.role == UserRole::User
            &&& user.role != UserRole::Guest ==> after.role == user.role
        }),
{
}

/// The name of the cookie that keeps the anti-forgery token of a delegated
/// login.
pub open spec fn csrf_cookie_name() -> Seq<char> {
    "oauth_csrf"@
}

/// The name of the cookie that keeps the proof key of a delegated login.
pub open spec fn pkce_cookie_name() -> Seq<char> {
    "oauth_pkce"@
}

/// What the start of a delegated login ends with: the way to the provider
/// together with the two cookies that keep the secrets, or a failure where
/// no address could be built.
pub open spec fn redirect_outcome(start: Option<AuthorizationStartView>) -> EffectView {
    match start {
        Some(s) => EffectView::Reply {
            reply: ReplyView::Redirect {
                location: s.auth_url,
                csrf_cookie: transient_cookie(csrf_cookie_name(), s.csrf_token),
                pkce_cookie: transient_cookie(pkce_cookie_name(), s.pkce_verifier),
            },
        },
        None => failure(STATUS_INTERNAL_SERVER_ERROR, ErrorMessage::ServerError.text()),
    }
}

/// Ends the start of a delegated login, given what the provider's client
/// handed out.
pub fn redirect_reply(start: Option<AuthorizationStart>) -> (r: Effect)
    ensures
        r@ == redirect_outcome(start_view(start)),
{
    match start {
        Some(s) => {
            let csrf_cookie = CookieSpec::transient("oauth_csrf", s.csrf_token.as_str());
            let pkce_cookie = CookieSpec::transient("oauth_pkce", s.pkce_verifier.as_str());
            Effect::Reply {
                reply: Reply::Redirect { location: s.auth_url, csrf_cookie, pkce_cookie },
            }
        },
        None => Effect::fail(STATUS_INTERNAL_SERVER_ERROR, ErrorMessage::ServerError.to_string()),
    }
}

/// Starts a login at Google: sends the caller to Google's consent page and
/// leaves the anti-forgery token and the proof key with the caller, each in
/// a cookie that lives for ten minutes. Whatever secrets are drawn, the
/// address embeds the very token and the challenge of the very key that the
/// cookies hold.
pub fn google_login(config: &OAuthConfig) -> (r: Effect)
    ensures
        exists|start: Option<AuthorizationStart>, csrf_token: Seq<char>, pkce_verifier: Seq<char>|
            #![trigger
                GoogleOAuth::new_spec(*config).client.starts(
                    GoogleOAuth::first_scope(),
                    GoogleOAuth::second_scope(),
                    start,
                    csrf_token,
                    pkce_verifier,
                )]
            GoogleOAuth::new_spec(*config).client.starts(
                GoogleOAuth::first_scope(),
                GoogleOAuth::second_scope(),
                start,
                csrf_token,
                pkce_verifier,
            ) && r@ == redirect_outcome(start_view(start)),
{
    let google_oauth = GoogleOAuth::new(config);
    let start = google_oauth.generate_auth_url();
    proof {
        let (csrf_token, pkce_verifier) = choose|csrf_token: Seq<char>, pkce_verifier: Seq<char>| #[trigger]
            google_oauth.client.starts(
                GoogleOAuth::first_scope(),
                GoogleOAuth::second_scope(),
                start,
                csrf_token,
                pkce_verifier,
            );
        assert(GoogleOAuth::new_spec(*config).client.starts(
            GoogleOAuth::first_scope(),
            GoogleOAuth::second_scope(),
            start,
            csrf_token,
            pkce_verifier,
        ));
    }
    redirect_reply(start)
}

/// Starts a login at GitHub: sends the caller to GitHub's consent page and
/// leaves the anti-forgery token and the proof key with the caller, each in
/// a cookie that lives for ten minutes. Whatever secrets are drawn, the
/// address embeds the very token and the challenge of the very key that the
/// cookies hold.
pub fn github_login(config: &OAuthConfig) -> (r: Effect)
    ensures
        exists|start: Option<AuthorizationStart>, csrf_token: Seq<char>, pkce_verifier: Seq<char>|
            #![trigger
                GithubOAuth::new_spec(*config).client.starts(
                    GithubOAuth::first_scope(),
                    GithubOAuth::second_scope(),
                    start,
                    csrf_token,
                    pkce_verifier,
                )]
            GithubOAuth::new_spec(*config).client.starts(
                GithubOAuth::first_scope(),
                GithubOAuth::second_scope(),
                start,
                csrf_token,
                pkce_verifier,
            ) && r@ == redirect_outcome(start_view(start)),
{
    let github_oauth = GithubOAuth::new(config);
    let start = github_oauth.generate_auth_url();
    proof {
        let (csrf_token, pkce_verifier) = choose|csrf_token: Seq<char>, pkce_verifier: Seq<char>| #[trigger]
            github_oauth.client.starts(
                GithubOAuth::first_scope(),
                GithubOAuth::second_scope(),
                start,
                csrf_token,
                pkce_verifier,
            );
        assert(GithubOAuth::new_spec(*config).client.starts(
            GithubOAuth::first_scope(),
            GithubOAuth::second_scope(),
            start,
            csrf_token,
            pkce_verifier,
        ));
    }
    redirect_reply(start)
}

/// Where the callback of a delegated login stands.
#[derive(Debug)]
pub enum CallbackState {
    /// The provider has sent the user back with `code` and `state`; the
    /// caller's cookies hold (or lack) the anti-forgery token and the proof
    /// key of the login that was started.
    AwaitingCallback {
        provider: AuthProvider,
        code: String,
        state: String,
        stored_csrf: Option<String>,
        stored_pkce: Option<String>,
    },
    /// The provider is trading the code for the user's profile.
    Exchanging { provider: AuthProvider },
    /// The user store is looking for an account with the profile's address.
    ResolvingUser { provider: AuthProvider, email: String, name: String },
    /// The user store is storing the new account.
    CreatingUser { email: String, name: String },
    /// The mail system is taking the welcome mail.
    Welcoming { user_id: String },
    Completed,
    Rejected,
}

/// The mathematical content of a [`CallbackState`].
pub ghost enum CallbackStateView {
    AwaitingCallback {
        provider: AuthProvider,
        code: Seq<char>,
        state: Seq<char>,
        stored_csrf: Option<Seq<char>>,
        stored_pkce: Option<Seq<char>>,
    },
    Exchanging { provider: AuthProvider },
    ResolvingUser { provider: AuthProvider, email: Seq<char>, name: Seq<char> },
    CreatingUser { email: Seq<char>, name: Seq<char> },
    Welcoming { user_id: Seq<char> },
    Completed,
    Rejected,
}

impl View for CallbackState {
    type V = CallbackStateView;

    open spec fn view(&self) -> CallbackStateView {
        match self {
            CallbackState::AwaitingCallback {
                provider,
                code,
                state,
                stored_csrf,
                stored_pkce,
            } => CallbackStateView::AwaitingCallback {
                provider: *provider,
                code: code@,
                state: state@,
                stored_csrf: text_of(*stored_csrf),
                stored_pkce: text_of(*stored_pkce),
            },
            CallbackState::Exchanging { provider } => CallbackStateView::Exchanging {
                provider: *provider,
            },
            CallbackState::ResolvingUser {
                provider,
                email,
                name,
            } => CallbackStateView::ResolvingUser {
                provider: *provider,
                email: email@,
                name: name@,
            },
            CallbackState::CreatingUser { email, name } => CallbackStateView::CreatingUser {
                email: email@,
                name: name@,
            },
            CallbackState::Welcoming { user_id } => CallbackStateView::Welcoming {
                user_id: user_id@,
            },
            CallbackState::Completed => CallbackStateView::Completed,
            CallbackState::Rejected => CallbackStateView::Rejected,
        }
    }
}

/// The failure of a callback. It asks to clear the cookies of the login
/// along with it, so that the secrets cannot be used again.
pub open spec fn rejection(status: u16, message: Seq<char>) -> EffectView {
    EffectView::Fail { error: crate::errors::http_error(status, message), clear_transient: true }
}

/// The failure of a callback with the given status and sentence.
pub fn reject(status: u16, message: String) -> (r: Effect)
    ensures
        r@ == rejection(status, message@),
{
    Effect::Fail { error: HttpError::new(message, status), clear_transient: true }
}

/// What a callback ends with once a session was to be issued: the session
/// with its cookie and the clearing of the login's cookies, or the failure
/// to issue it.
pub open spec fn delegated_outcome(issued: Result<Seq<char>, TokenErrorView>, ttl_minutes: int) -> (
    CallbackStateView,
    EffectView,
) {
    match issued {
        Ok(token) => (
            CallbackStateView::Completed,
            EffectView::Reply {
                reply: ReplyView::DelegatedSession {
                    token,
                    cookie: session_cookie(token, ttl_minutes, true),
                    clear_csrf: cleared_cookie(csrf_cookie_name()),
                    clear_pkce: cleared_cookie(pkce_cookie_name()),
                },
            },
        ),
        Err(e) => (CallbackStateView::Rejected, rejection(STATUS_INTERNAL_SERVER_ERROR, e.text())),
    }
}

/// Ends a callback, given what issuing the session returned.
pub fn delegated_reply(issued: Result<String, TokenError>, ttl_minutes: i64) -> (r: (
    CallbackState,
    Effect,
))
    ensures
        (r.0@, r.1@) == delegated_outcome(issued_view(issued), ttl_minutes as int),
{
    match issued {
        Ok(token) => {
            let cookie = CookieSpec::session(token.as_str(), ttl_minutes, true);
            let clear_csrf = CookieSpec::cleared("oauth_csrf");
            let clear_pkce = CookieSpec::cleared("oauth_pkce");
            (
                CallbackState::Completed,
                Effect::Reply {
                    reply: Reply::DelegatedSession { token, cookie, clear_csrf, clear_pkce },
                },
            )
        },
        Err(e) => (CallbackState::Rejected, reject(STATUS_INTERNAL_SERVER_ERROR, e.to_string())),
    }
}

/// The first decision of a callback, made before anything leaves the
/// process: the state that the provider returned must be the very
/// anti-forgery token that the caller kept, and the caller must still hold
/// the proof key.
pub open spec fn callback_entry(
    provider: AuthProvider,
    code: Seq<char>,
    state: Seq<char>,
    stored_csrf: Option<Seq<char>>,
    stored_pkce: Option<Seq<char>>,
) -> (CallbackStateView, EffectView) {
    match stored_csrf {
        None => (CallbackStateView::Rejected, rejection(STATUS_BAD_REQUEST, "Missing CSRF token"@)),
        Some(csrf) => if csrf != state {
            (CallbackStateView::Rejected, rejection(STATUS_BAD_REQUEST, "Invalid CSRF token"@))
        } else {
            match stored_pkce {
                None => (
                    CallbackStateView::Rejected,
                    rejection(STATUS_BAD_REQUEST, "Missing PKCE verifier"@),
                ),
                Some(pkce_verifier) => (
                    CallbackStateView::Exchanging { provider },
                    EffectView::ExchangeCode { code, pkce_verifier },
                ),
            }
        },
    }
}

/// The next state and effect of a callback.
///
/// An account that already holds the profile's address is used as it is,
/// whoever established it; only where there is none is an account made.
pub open spec fn callback_next(
    state: CallbackStateView,
    event: EventView,
    secret: Seq<u8>,
    ttl_minutes: int,
    now: int,
) -> (CallbackStateView, EffectView) {
    match (state, event) {
        (
            CallbackStateView::AwaitingCallback { provider, code, state, stored_csrf, stored_pkce },
            EventView::Start,
        ) => callback_entry(provider, code, state, stored_csrf, stored_pkce),
        (CallbackStateView::Exchanging { provider }, EventView::ProfileFetched { profile }) => (
            CallbackStateView::ResolvingUser {
                provider,
                email: profile.email,
                name: profile.name,
            },
            EffectView::FindUserByEmail { email: profile.email },
        ),
        (CallbackStateView::Exchanging { provider }, EventView::ExchangeFailed { error }) => (
            CallbackStateView::Rejected,
            rejection(STATUS_INTERNAL_SERVER_ERROR, "OAuth exchange failed: "@ + error.text()),
        ),
        (
            CallbackStateView::ResolvingUser { provider, email, name },
            EventView::UserFound { found: Some(user) },
        ) => delegated_outcome(
            AuthService::issue_spec(user.id, secret, ttl_minutes, now),
            ttl_minutes,
        ),
        (
            CallbackStateView::ResolvingUser { provider, email, name },
            EventView::UserFound { found: None },
        ) => if provider == AuthProvider::Local {
            (
                CallbackStateView::Rejected,
                rejection(STATUS_INTERNAL_SERVER_ERROR, ErrorMessage::ServerError.text()),
            )
        } else {
            (
                CallbackStateView::CreatingUser { email, name },
                EffectView::InsertOAuthUser { name, email, provider },
            )
        },
        (
            CallbackStateView::ResolvingUser { provider, email, name },
            EventView::StoreFailed { reason },
        ) => (CallbackStateView::Rejected, rejection(STATUS_INTERNAL_SERVER_ERROR, reason)),
        (CallbackStateView::CreatingUser { email, name }, EventView::UserStored { user }) => (
            CallbackStateView::Welcoming { user_id: user.id },
            EffectView::SendMail { mail: welcome_mail(email, name) },
        ),
        (CallbackStateView::CreatingUser { email, name }, EventView::StoreFailed { reason }) => (
            CallbackStateView::Rejected,
            rejection(STATUS_INTERNAL_SERVER_ERROR, reason),
        ),
        (CallbackStateView::Welcoming { user_id }, EventView::MailSent) => delegated_outcome(
            AuthService::issue_spec(user_id, secret, ttl_minutes, now),
            ttl_minutes,
        ),
        (CallbackStateView::Welcoming { user_id }, EventView::MailFailed { reason }) => (
            CallbackStateView::Rejected,
            rejection(STATUS_INTERNAL_SERVER_ERROR, "Failed to send welcome email: "@ + reason),
        ),
        _ => (
            CallbackStateView::Rejected,
            rejection(STATUS_INTERNAL_SERVER_ERROR, ErrorMessage::ServerError.text()),
        ),
    }
}

/// Makes the first decision of a callback: compares the returned state with
/// the anti-forgery token that was kept, and asks for the proof key.
pub fn check_callback(
    provider: AuthProvider,
    code: String,
    state: String,
    stored_csrf: Option<String>,
    stored_pkce: Option<String>,
) -> (r: (CallbackState, Effect))
    ensures
        (r.0@, r.1@) == callback_entry(
            provider,
            code@,
            state@,
            text_of(stored_csrf),
            text_of(stored_pkce),
        ),
{
    match stored_csrf {
        None => (
            CallbackState::Rejected,
            reject(STATUS_BAD_REQUEST, String::from_str("Missing CSRF token")),
        ),
        Some(csrf) => {
            if csrf != state {
                (
                    CallbackState::Rejected,
                    reject(STATUS_BAD_REQUEST, String::from_str("Invalid CSRF token")),
                )
            } else {
                match stored_pkce {
                    None => (
                        CallbackState::Rejected,
                        reject(STATUS_BAD_REQUEST, String::from_str("Missing PKCE verifier")),
                    ),
                    Some(pkce_verifier) => (
                        CallbackState::Exchanging { provider },
                        Effect::ExchangeCode { code, pkce_verifier },
                    ),
                }
            }
        },
    }
}

/// One step of the callback of a delegated login: checks the anti-forgery
/// token, has the code exchanged for the profile, finds or makes the
/// account and issues a session. The callbacks of all providers go this
/// way; the provider that the state names decides whose account is made.
pub fn google_callback(
    state: CallbackState,
    event: Event,
    config: &AppConfig,
    moment: &Moment,
) -> (r: (CallbackState, Effect))
    ensures
        (r.0@, r.1@) == callback_next(
            state@,
            event@,
            config.secret_bytes(),
            config.jwt_maxage as int,
            moment.now as int,
        ),
{
    match (state, event) {
        (
            CallbackState::AwaitingCallback { provider, code, state, stored_csrf, stored_pkce },
            Event::Start,
        ) => check_callback(provider, code, state, stored_csrf, stored_pkce),
        (CallbackState::Exchanging { provider }, Event::ProfileFetched { profile }) => {
            let lookup = profile.email.clone();
            (
                CallbackState::ResolvingUser { provider, email: profile.email, name: profile.name },
                Effect::FindUserByEmail { email: lookup },
            )
        },
        (CallbackState::Exchanging { provider }, Event::ExchangeFailed { error }) => (
            CallbackState::Rejected,
            reject(
                STATUS_INTERNAL_SERVER_ERROR,
                join2("OAuth exchange failed: ", error.to_string().as_str()),
            ),
        ),
        (
            CallbackState::ResolvingUser { provider, email, name },
            Event::UserFound { found: Some(user) },
        ) => {
            let issued = AuthService::create_token_at(
                user.id.as_str(),
                config.jwt_secret.as_str().as_bytes(),
                config.jwt_maxage,
                moment.now,
            );
            delegated_reply(issued, config.jwt_maxage)
        },
        (
            CallbackState::ResolvingUser { provider, email, name },
            Event::UserFound { found: None },
        ) => {
            match provider {
                AuthProvider::Local => (
                    CallbackState::Rejected,
                    reject(STATUS_INTERNAL_SERVER_ERROR, ErrorMessage::ServerError.to_string()),
                ),
                _ => {
                    let new_name = name.clone();
                    let new_email = email.clone();
                    (
                        CallbackState::CreatingUser { email, name },
                        Effect::InsertOAuthUser { name: new_name, email: new_email, provider },
                    )
                },
            }
        },
        (
            CallbackState::ResolvingUser { provider, email, name },
            Event::StoreFailed { reason },
        ) => (CallbackState::Rejected, reject(STATUS_INTERNAL_SERVER_ERROR, reason)),
        (CallbackState::CreatingUser { email, name }, Event::UserStored { user }) => (
            CallbackState::Welcoming { user_id: user.id },
            Effect::SendMail { mail: send_welcome_email(email.as_str(), name.as_str()) },
        ),
        (CallbackState::CreatingUser { email, name }, Event::StoreFailed { reason }) => (
            CallbackState::Rejected,
            reject(STATUS_INTERNAL_SERVER_ERROR, reason),
        ),
        (CallbackState::Welcoming { user_id }, Event::MailSent) => {
            let issued = AuthService::create_token_at(
                user_id.as_str(),
                config.jwt_secret.as_str().as_bytes(),
                config.jwt_maxage,
                moment.now,
            );
            delegated_reply(issued, config.jwt_maxage)
        },
        (CallbackState::Welcoming { user_id }, Event::MailFailed { reason }) => (
            CallbackState::Rejected,
            reject(
                STATUS_INTERNAL_SERVER_ERROR,
                join2("Failed to send welcome email: ", reason.as_str()),
            ),
        ),
        _ => (
            CallbackState::Rejected,
            reject(STATUS_INTERNAL_SERVER_ERROR, ErrorMessage::ServerError.to_string()),
        ),
    }
}

/// A callback whose state is not the anti-forgery token that the caller
/// kept is rejected at once, as a fault of the request: no step of it, then
/// or later, reaches out to the identity provider or changes the user
/// store.
pub proof fn forged_callback_reaches_no_provider(
    provider: AuthProvider,
    code: Seq<char>,
    state: Seq<char>,
    stored_csrf: Option<Seq<char>>,
    stored_pkce: Option<Seq<char>>,
    later: EventView,
    secret: Seq<u8>,
    ttl_minutes: int,
    now: int,
)
    requires
        stored_csrf != Some(state),
    ensures
        ({
            let first = callback_next(
                CallbackStateView::AwaitingCallback {
                    provider,
                    code,
                    state,
                    stored_csrf,
                    stored_pkce,
                },
                EventView::Start,
                secret,
                ttl_minutes,
                now,
            );
            let second = callback_next(first.0, later, secret, ttl_minutes, now);
            &&& first.0 == CallbackStateView::Rejected
            &&& first.1 matches EffectView::Fail { error, clear_transient }
            &&& error.status == STATUS_BAD_REQUEST
            &&& clear_transient
            &&& second.0 == CallbackStateView::Rejected
            &&& second.1 is Fail
            &&& !second.1.calls_provider() && !second.1.writes_store()
        }),
{
}

/// The provider is asked to exchange the code only by the first step of a
/// callback, and only where the returned state equals the token that was
/// kept and the proof key is at hand.
pub proof fn provider_is_called_only_after_the_check(
    state: CallbackStateView,
    event: EventView,
    secret: Seq<u8>,
    ttl_minutes: int,
    now: int,
)
    requires
        callback_next(state, event, secret, ttl_minutes, now).1.calls_provider(),
    ensures
        event == EventView::Start,
        state matches CallbackStateView::AwaitingCallback { state: returned, stored_csrf, stored_pkce, .. }
            && stored_csrf == Some(returned) && stored_pkce is Some,
{
}

/// A callback whose profile carries the address of an existing account
/// resolves to that account, whoever established it: no account is made,
/// nothing in the user store is changed, and the session that is issued is
/// the one for the existing account's identifier.
pub proof fn existing_account_is_linked(
    provider: AuthProvider,
    email: Seq<char>,
    name: Seq<char>,
    user: UserView,
    secret: Seq<u8>,
    ttl_minutes: int,
    now: int,
)
    ensures
        ({
            let next = callback_next(
                CallbackStateView::ResolvingUser { provider, email, name },
                EventView::UserFound { found: Some(user) },
                secret,
                ttl_minutes,
                now,
            );
            &&& !next.1.writes_store()
            &&& next.1.is_final()
            &&& next.1 matches EffectView::Reply { reply } ==> reply matches ReplyView::DelegatedSession {
                token,
                ..
            } && AuthService::issue_spec(user.id, secret, ttl_minutes, now) == Ok::<
                Seq<char>,
                TokenErrorView,
            >(token)
        }),
{
}

/// An account that a callback makes is the account of an identity provider:
/// it is stored verified and without password, and never as a local
/// account, so the record that comes of it is well formed. A callback makes
/// an account only after a lookup by the profile's address found none.
pub proof fn callback_makes_only_provider_accounts(
    state: CallbackStateView,
    event: EventView,
    secret: Seq<u8>,
    ttl_minutes: int,
    now: int,
    id: Seq<char>,
    stored_at: i64,
)
    requires
        callback_next(state, event, secret, ttl_minutes, now).1 is InsertOAuthUser,
    ensures
        ({
            let effect = callback_next(state, event, secret, ttl_minutes, now).1;
            &&& effect->InsertOAuthUser_provider != AuthProvider::Local
            &&& new_oauth_user(
                id,
                effect->InsertOAuthUser_name,
                effect->InsertOAuthUser_email,
                effect->InsertOAuthUser_provider,
                stored_at,
            ).well_formed()
            &&& state matches CallbackStateView::ResolvingUser { email, .. } && email
                == effect->InsertOAuthUser_email
            &&& event == EventView::UserFound { found: None }
        }),
{
}

/// However a callback ends, the secrets of the login are cleared with it:
/// a failure asks for the clearing, and a session goes out together with
/// the two cookies that clear them.
pub proof fn callback_end_clears_the_secrets(
    state: CallbackStateView,
    event: EventView,
    secret: Seq<u8>,
    ttl_minutes: int,
    now: int,
)
    ensures
        ({
            let next = callback_next(state, event, secret, ttl_minutes, now);
            &&& next.1 matches EffectView::Fail { clear_transient, .. } ==> clear_transient
            &&& next.1 matches EffectView::Reply { reply } ==> reply matches ReplyView::DelegatedSession {
                clear_csrf,
                clear_pkce,
                ..
            } && clear_csrf == cleared_cookie(csrf_cookie_name()) && clear_pkce == cleared_cookie(
                pkce_cookie_name(),
            )
            &&& next.1.is_final() <==> (next.0 == CallbackStateView::Completed || next.0
                == CallbackStateView::Rejected)
        }),
{
}

/// A login does not tell which addresses have accounts: an unknown address
/// is answered exactly as a known address with a password that does not
/// match or cannot be compared.
pub proof fn login_hides_which_accounts_exist(
    password: Seq<char>,
    user: UserView,
    secret: Seq<u8>,
    ttl_minutes: int,
    now: int,
)
    requires
        AuthService::compare_spec(password, user.password) != Ok::<bool, ErrorMessage>(true),
    ensures
        login_next(
            LoginStateView::AwaitingUser { password },
            EventView::UserFound { found: Some(user) },
            secret,
            ttl_minutes,
            now,
        ) == login_next(
            LoginStateView::AwaitingUser { password },
            EventView::UserFound { found: None },
            secret,
            ttl_minutes,
            now,
        ),
{
}

/// A request is over exactly when its effect is a reply or a failure: the
/// state that goes with such an effect is the last one, and a request in
/// its last state answers whatever happens with a failure and stays there.
pub proof fn requests_end_with_their_answer(
    event: EventView,
    moment: MomentView,
    secret: Seq<u8>,
    ttl_minutes: int,
    login: LoginStateView,
    registration: RegisterStateView,
    confirmation: VerifyEmailStateView,
    request: ForgotPasswordStateView,
    reset: ResetPasswordStateView,
)
    ensures
        ({
            let next = login_next(login, event, secret, ttl_minutes, moment.now as int);
            next.1.is_final() <==> next.0 == LoginStateView::Finished
        }),
        ({
            let next = register_next(registration, event, moment);
            next.1.is_final() <==> next.0 == RegisterStateView::Finished
        }),
        ({
            let next = verify_email_next(
                confirmation,
                event,
                secret,
                ttl_minutes,
                moment.now as int,
            );
            next.1.is_final() <==> next.0 == VerifyEmailStateView::Finished
        }),
        ({
            let next = forgot_password_next(request, event, moment);
            next.1.is_final() <==> next.0 == ForgotPasswordStateView::Finished
        }),
        ({
            let next = reset_password_next(reset, event, moment);
            next.1.is_final() <==> next.0 == ResetPasswordStateView::Finished
        }),
        login_next(LoginStateView::Finished, event, secret, ttl_minutes, moment.now as int) == (
            LoginStateView::Finished,
            out_of_turn(),
        ),
        register_next(RegisterStateView::Finished, event, moment) == (
            RegisterStateView::Finished,
            out_of_turn(),
        ),
        verify_email_next(
            VerifyEmailStateView::Finished,
            event,
            secret,
            ttl_minutes,
            moment.now as int,
        ) == (VerifyEmailStateView::Finished, out_of_turn()),
        forgot_password_next(ForgotPasswordStateView::Finished, event, moment) == (
            ForgotPasswordStateView::Finished,
            out_of_turn(),
        ),
        reset_password_next(ResetPasswordStateView::Finished, event, moment) == (
            ResetPasswordStateView::Finished,
            out_of_turn(),
        ),
{
}

} // verus!
