//! The user record and its role.

use crate::auth::model::AuthProvider;
use crate::auth::verification::TokenPurpose;
use crate::text::{join2, lowercase_of, same_text, to_lowercase};
use vstd::prelude::*;
use vstd::string::*;

verus! {

/// The privilege level of an account.
#[derive(Debug, Clone, Copy, PartialEq, Eq, Structural)]
pub enum UserRole {
    Admin,
    User,
    Guest,
}

impl UserRole {
    /// The role's name as text.
    pub open spec fn name(self) -> Seq<char> {
        match self {
            UserRole::Admin => "Admin"@,
            UserRole::User => "User"@,
            UserRole::Guest => "Guest"@,
        }
    }

    /// The role that a lowercase name stands for, or the complaint about
    /// `given` when it names none.
    pub open spec fn parse(lower: Seq<char>, given: Seq<char>) -> Result<UserRole, Seq<char>> {
        if lower == "admin"@ {
            Ok(UserRole::Admin)
        } else if lower == "user"@ {
            Ok(UserRole::User)
        } else if lower == "guest"@ {
            Ok(UserRole::Guest)
        } else {
            Err("Invalid user role: "@ + given)
        }
    }

    /// The role of an account once its address is confirmed: the lowest
    /// role, which a new account starts in, gives way to the standard one;
    /// every other role stays.
    pub open spec fn promoted(self) -> UserRole {
        match self {
            UserRole::Guest => UserRole::User,
            other => other,
        }
    }

    /// The role of an account once its address is confirmed.
    pub fn promote(self) -> (r: UserRole)
        ensures
            r == self.promoted(),
    {
        match self {
            UserRole::Guest => UserRole::User,
            other => other,
        }
    }

    pub fn to_str(&self) -> (r: &'static str)
        ensures
            r@ == self.name(),
    {
        match self {
            UserRole::Admin => "Admin",
            UserRole::User => "User",
            UserRole::Guest => "Guest",
        }
    }

    /// Reads a role from its lowercase name; `given` is quoted in the
    /// complaint when the name is unknown.
    pub fn from_lowercase(lower: &str, given: &str) -> (r: Result<UserRole, String>)
        ensures
            match Self::parse(lower@, given@) {
                Ok(role) => r == Ok::<UserRole, String>(role),
                Err(complaint) => r is Err && r->Err_0@ == complaint,
            },
    {
        if same_text(lower, "admin") {
            Ok(UserRole::Admin)
        } else if same_text(lower, "user") {
            Ok(UserRole::User)
        } else if same_text(lower, "guest") {
            Ok(UserRole::Guest)
        } else {
            Err(join2("Invalid user role: ", given))
        }
    }

    /// Reads a role from its name, whatever the case of its letters.
    pub fn from_str(s: &str) -> (r: Result<UserRole, String>)
        ensures
            match Self::parse(lowercase_of(s@), s@) {
                Ok(role) => r == Ok::<UserRole, String>(role),
                Err(complaint) => r is Err && r->Err_0@ == complaint,
            },
    {
        let lower = to_lowercase(s);
        Self::from_lowercase(lower.as_str(), s)
    }
}

/// The authoritative identity record.
///
/// Times are seconds since the Unix epoch.
#[derive(Debug)]
pub struct User {
    pub id: String,
    pub name: String,
    pub email: String,
    pub password: String,
    pub role: UserRole,
    pub verified: bool,
    pub verification_token: Option<String>,
    pub token_expires_at: Option<i64>,
    pub provider: AuthProvider,
    pub created_at: Option<i64>,
    pub updated_at: Option<i64>,
}

/// The mathematical content of a [`User`].
pub ghost struct UserView {
    pub id: Seq<char>,
    pub name: Seq<char>,
    pub email: Seq<char>,
    pub password: Seq<char>,
    pub role: UserRole,
    pub verified: bool,
    pub verification_token: Option<Seq<char>>,
    pub token_expires_at: Option<i64>,
    pub provider: AuthProvider,
    pub created_at: Option<i64>,
    pub updated_at: Option<i64>,
}

/// The content of an optional text.
pub open spec fn text_of(o: Option<String>) -> Option<Seq<char>> {
    match o {
        Some(s) => Some(s@),
        None => None,
    }
}

impl View for User {
    type V = UserView;

    open spec fn view(&self) -> UserView {
        UserView {
            id: self.id@,
            name: self.name@,
            email: self.email@,
            password: self.password@,
            role: self.role,
            verified: self.verified,
            verification_token: text_of(self.verification_token),
            token_expires_at: self.token_expires_at,
            provider: self.provider,
            created_at: self.created_at,
            updated_at: self.updated_at,
        }
    }
}

impl UserView {
    /// A record's credentials are consistent when it either holds a password
    /// hash or was established by an outside provider, never both and never
    /// neither; and a verification token never stands without its expiry.
    pub open spec fn well_formed(self) -> bool {
        &&& (self.password.len() > 0) != (self.provider != AuthProvider::Local)
        &&& self.verification_token is Some ==> self.token_expires_at is Some
    }

    /// The role of the record once its token was used for the given
    /// purpose: a token that confirms a new account lifts the account from
    /// the lowest role to the standard one; a token that resets a password
    /// leaves the role as it is.
    pub open spec fn role_after(self, purpose: TokenPurpose) -> UserRole {
        match purpose {
            TokenPurpose::NewAccount => self.role.promoted(),
            TokenPurpose::PasswordReset => self.role,
        }
    }

    /// The record after its token was used at `now` for the given purpose:
    /// the token and its expiry are gone and the account is verified,
    /// whatever the purpose, since who holds the token has read the mail.
    /// Only the role depends on the purpose.
    pub open spec fn consumed(self, purpose: TokenPurpose, now: i64) -> UserView {
        UserView {
            verified: true,
            verification_token: None,
            token_expires_at: None,
            role: self.role_after(purpose),
            updated_at: Some(now),
            ..self
        }
    }

    /// The record with a fresh verification token and its expiry, put on it
    /// at `now`.
    pub open spec fn with_token(self, token: Seq<char>, expires_at: i64, now: i64) -> UserView {
        UserView {
            verification_token: Some(token),
            token_expires_at: Some(expires_at),
            updated_at: Some(now),
            ..self
        }
    }

    /// The record with another password hash, stored at `now`.
    pub open spec fn with_password(self, hash: Seq<char>, now: i64) -> UserView {
        UserView { password: hash, updated_at: Some(now), ..self }
    }

    /// The record with another role, given at `now`.
    pub open spec fn with_role(self, role: UserRole, now: i64) -> UserView {
        UserView { role, updated_at: Some(now), ..self }
    }

    /// The record with another name, given at `now`.
    pub open spec fn with_name(self, name: Seq<char>, now: i64) -> UserView {
        UserView { name, updated_at: Some(now), ..self }
    }
}

/// The record of a local account as it is first stored at `now`: unverified,
/// in the lowest role, with its first token.
pub open spec fn new_local_user(
    id: Seq<char>,
    name: Seq<char>,
    email: Seq<char>,
    password: Seq<char>,
    verification_token: Seq<char>,
    token_expires_at: i64,
    now: i64,
) -> UserView {
    UserView {
        id,
        name,
        email,
        password,
        role: UserRole::Guest,
        verified: false,
        verification_token: Some(verification_token),
        token_expires_at: Some(token_expires_at),
        provider: AuthProvider::Local,
        created_at: Some(now),
        updated_at: Some(now),
    }
}

/// The record of an account that an identity provider vouches for, as it is
/// first stored at `now`: verified, without password and without token.
pub open spec fn new_oauth_user(
    id: Seq<char>,
    name: Seq<char>,
    email: Seq<char>,
    provider: AuthProvider,
    now: i64,
) -> UserView {
    UserView {
        id,
        name,
        email,
        password: Seq::empty(),
        role: UserRole::Guest,
        verified: true,
        verification_token: None,
        token_expires_at: None,
        provider,
        created_at: Some(now),
        updated_at: Some(now),
    }
}

/// A record is well formed when it is first stored: a local account with
/// its password hash, an account of an identity provider without one.
pub proof fn fresh_records_are_well_formed(
    id: Seq<char>,
    name: Seq<char>,
    email: Seq<char>,
    password: Seq<char>,
    verification_token: Seq<char>,
    token_expires_at: i64,
    provider: AuthProvider,
    now: i64,
)
    ensures
        password.len() > 0 ==> new_local_user(
            id,
            name,
            email,
            password,
            verification_token,
            token_expires_at,
            now,
        ).well_formed(),
        provider != AuthProvider::Local ==> new_oauth_user(
            id,
            name,
            email,
            provider,
            now,
        ).well_formed(),
{
}

/// A well-formed record stays well formed when its token is granted or
/// consumed and when its role or name changes. A new password hash keeps a
/// local account well formed where the hash is not empty; a hash that is
/// not empty on the account of an identity provider does not.
pub proof fn changes_keep_records_well_formed(
    user: UserView,
    token: Seq<char>,
    expires_at: i64,
    hash: Seq<char>,
    role: UserRole,
    name: Seq<char>,
    purpose: TokenPurpose,
    now: i64,
)
    requires
        user.well_formed(),
    ensures
        user.consumed(purpose, now).well_formed(),
        user.with_token(token, expires_at, now).well_formed(),
        user.with_role(role, now).well_formed(),
        user.with_name(name, now).well_formed(),
        user.with_password(hash, now).well_formed() <==> ((hash.len() > 0) == (user.provider
            == AuthProvider::Local)),
{
}

/// A copy of an optional text.
pub fn copy_text(o: &Option<String>) -> (r: Option<String>)
    ensures
        text_of(r) == text_of(*o),
{
    match o {
        Some(s) => Some(s.clone()),
        None => None,
    }
}

impl User {
    /// A copy of the record.
    pub fn duplicate(&self) -> (r: User)
        ensures
            r@ == self@,
    {
        User {
            id: self.id.clone(),
            name: self.name.clone(),
            email: self.email.clone(),
            password: self.password.clone(),
            role: self.role,
            verified: self.verified,
            verification_token: copy_text(&self.verification_token),
            token_expires_at: self.token_expires_at,
            provider: self.provider,
            created_at: self.created_at,
            updated_at: self.updated_at,
        }
    }
}

} // verus!
