//! Single-use, time-bounded verification tokens.
//!
//! One token field on the user record serves two purposes: confirming a new
//! account and resetting a password. The use of a token, for either
//! purpose, clears it and marks the account verified. The purpose decides
//! how long the token lives and what becomes of the role: a confirmation
//! lifts the account from the lowest role, a reset leaves the role alone.

use crate::auth::flow::{Effect, EffectView, Moment, MomentView};
use crate::errors::{http_error, HttpError, HttpErrorView, STATUS_BAD_REQUEST};
use crate::users::model::User;
use vstd::prelude::*;
use vstd::string::*;

verus! {

/// What a verification token is issued for.
#[derive(Debug, Clone, Copy, PartialEq, Eq, Structural)]
pub enum TokenPurpose {
    /// Confirming the address of a newly registered account.
    NewAccount,
    /// Resetting a forgotten password.
    PasswordReset,
}

/// Lifetime of a token that confirms a new account: 24 hours.
pub const NEW_ACCOUNT_TTL_SECONDS: i64 = 86400;

/// Lifetime of a token that resets a password: 30 minutes.
pub const PASSWORD_RESET_TTL_SECONDS: i64 = 1800;

/// The length of a freshly issued token, in characters.
pub const TOKEN_LENGTH: usize = 36;

impl TokenPurpose {
    /// How long a token issued for this purpose lives, in seconds.
    pub open spec fn ttl(self) -> int {
        match self {
            TokenPurpose::NewAccount => NEW_ACCOUNT_TTL_SECONDS as int,
            TokenPurpose::PasswordReset => PASSWORD_RESET_TTL_SECONDS as int,
        }
    }

    /// How long a token issued for this purpose lives, in seconds.
    pub fn ttl_seconds(&self) -> (r: i64)
        ensures
            r == self.ttl(),
    {
        match self {
            TokenPurpose::NewAccount => NEW_ACCOUNT_TTL_SECONDS,
            TokenPurpose::PasswordReset => PASSWORD_RESET_TTL_SECONDS,
        }
    }
}

/// The moment at which a token issued at `now` expires: `now` plus the
/// lifetime of its purpose, or the last moment that can be written where the
/// sum cannot.
pub open spec fn expiry(now: int, purpose: TokenPurpose) -> int {
    if now + purpose.ttl() > i64::MAX {
        i64::MAX as int
    } else {
        now + purpose.ttl()
    }
}

/// The moment at which a token issued at `now` for `purpose` expires.
pub fn expires_at(now: i64, purpose: TokenPurpose) -> (r: i64)
    ensures
        r == expiry(now as int, purpose),
{
    match now.checked_add(purpose.ttl_seconds()) {
        Some(t) => t,
        None => i64::MAX,
    }
}

/// `uuid::Uuid::new_v4().to_string()`: a random identifier in its hyphenated
/// form, which is 36 characters long. Nothing else is promised of it.
#[verifier::external_body]
pub(crate) fn fresh_token() -> (token: String)
    ensures
        token@.len() == TOKEN_LENGTH,
{
    uuid::Uuid::new_v4().to_string()
}

/// The verdict on the expiry that a user record carries, as of `now`: a
/// record without expiry carries no valid token; an expiry that lies before
/// `now` makes the token invalid though the record still holds it.
pub open spec fn expiry_check(token_expires_at: Option<i64>, now: int) -> Result<
    (),
    HttpErrorView,
> {
    match token_expires_at {
        Some(expires_at) => if now > expires_at {
            Err(http_error(STATUS_BAD_REQUEST, "Verification token has expired"@))
        } else {
            Ok(())
        },
        None => Err(http_error(STATUS_BAD_REQUEST, "Invalid verification token"@)),
    }
}

/// Checks that the token on a user record has not expired as of `now`.
pub fn check_not_expired(user: &User, now: i64) -> (r: Result<(), HttpError>)
    ensures
        match expiry_check(user@.token_expires_at, now as int) {
            Ok(_) => r is Ok,
            Err(e) => r is Err && r->Err_0@ == e,
        },
{
    match user.token_expires_at {
        Some(expires_at) => {
            if now > expires_at {
                Err(HttpError::bad_request(String::from_str("Verification token has expired")))
            } else {
                Ok(())
            }
        },
        None => Err(HttpError::bad_request(String::from_str("Invalid verification token"))),
    }
}

/// The request to bind a token of the given moment to a user record, with
/// the expiry that its purpose gives it.
pub open spec fn grant(user_id: Seq<char>, purpose: TokenPurpose, moment: MomentView) -> EffectView {
    EffectView::SetVerificationToken {
        user_id,
        token: moment.token,
        expires_at: expiry(moment.now as int, purpose) as i64,
    }
}

/// Issues a token for a user: asks the user store to put the moment's fresh
/// token on the record, with the expiry that the purpose gives it. The token
/// itself goes to the user by mail.
pub fn issue_for(user_id: String, purpose: TokenPurpose, moment: &Moment) -> (r: Effect)
    ensures
        r@ == grant(user_id@, purpose, moment@),
{
    Effect::SetVerificationToken {
        user_id,
        token: moment.token.clone(),
        expires_at: expires_at(moment.now, purpose),
    }
}

} // verus!
