//! The values that the authentication components exchange.

use crate::text::{join2, lowercase_of, same_text, to_lowercase};
use crate::users::model::text_of;
use vstd::prelude::*;
use vstd::string::*;

verus! {

/// The payload signed into a session token. Times are seconds since the Unix
/// epoch.
#[derive(Debug)]
pub struct TokenClaims {
    pub sub: String,
    pub iat: usize,
    pub exp: usize,
}

/// The mathematical content of [`TokenClaims`].
pub ghost struct TokenClaimsView {
    pub sub: Seq<char>,
    pub iat: usize,
    pub exp: usize,
}

impl View for TokenClaims {
    type V = TokenClaimsView;

    open spec fn view(&self) -> TokenClaimsView {
        TokenClaimsView { sub: self.sub@, iat: self.iat, exp: self.exp }
    }
}

/// The profile that Google's user-info endpoint returns.
#[derive(Debug)]
pub struct GoogleUser {
    pub email: String,
    pub email_verified: bool,
    pub name: String,
    pub picture: Option<String>,
    pub given_name: Option<String>,
    pub family_name: Option<String>,
}

/// The mathematical content of a [`GoogleUser`].
pub ghost struct GoogleUserView {
    pub email: Seq<char>,
    pub email_verified: bool,
    pub name: Seq<char>,
    pub picture: Option<Seq<char>>,
    pub given_name: Option<Seq<char>>,
    pub family_name: Option<Seq<char>>,
}

impl View for GoogleUser {
    type V = GoogleUserView;

    open spec fn view(&self) -> GoogleUserView {
        GoogleUserView {
            email: self.email@,
            email_verified: self.email_verified,
            name: self.name@,
            picture: text_of(self.picture),
            given_name: text_of(self.given_name),
            family_name: text_of(self.family_name),
        }
    }
}

/// One entry of the list that GitHub's emails endpoint returns.
#[derive(Debug)]
pub struct GithubEmail {
    pub email: String,
    pub primary: bool,
    pub verified: bool,
    pub visibility: Option<String>,
}

/// The mathematical content of a [`GithubEmail`].
pub ghost struct GithubEmailView {
    pub email: Seq<char>,
    pub primary: bool,
    pub verified: bool,
    pub visibility: Option<Seq<char>>,
}

impl View for GithubEmail {
    type V = GithubEmailView;

    open spec fn view(&self) -> GithubEmailView {
        GithubEmailView {
            email: self.email@,
            primary: self.primary,
            verified: self.verified,
            visibility: text_of(self.visibility),
        }
    }
}

/// The contents of a list of addresses.
pub open spec fn emails_view(emails: Seq<GithubEmail>) -> Seq<GithubEmailView> {
    emails.map_values(|e: GithubEmail| e@)
}

/// The profile that GitHub's user endpoint returns.
#[derive(Debug)]
pub struct GithubUser {
    pub login: String,
    pub id: u64,
    pub avatar_url: Option<String>,
    pub email: Option<String>,
    pub name: Option<String>,
}

/// The mathematical content of a [`GithubUser`].
pub ghost struct GithubUserView {
    pub login: Seq<char>,
    pub id: u64,
    pub avatar_url: Option<Seq<char>>,
    pub email: Option<Seq<char>>,
    pub name: Option<Seq<char>>,
}

impl View for GithubUser {
    type V = GithubUserView;

    open spec fn view(&self) -> GithubUserView {
        GithubUserView {
            login: self.login@,
            id: self.id,
            avatar_url: text_of(self.avatar_url),
            email: text_of(self.email),
            name: text_of(self.name),
        }
    }
}

/// What Google sends back to the callback address.
#[derive(Debug)]
pub struct GoogleCallbackQuery {
    pub code: String,
    pub state: String,
}

/// What GitHub sends back to the callback address.
#[derive(Debug)]
pub struct GithubCallbackQuery {
    pub code: String,
    pub state: String,
}

/// How an identity was established.
#[derive(Debug, Clone, Copy, PartialEq, Eq, Structural)]
pub enum AuthProvider {
    Local,
    Google,
    Github,
}

impl AuthProvider {
    /// The provider's name as text.
    pub open spec fn name(self) -> Seq<char> {
        match self {
            AuthProvider::Local => "Local"@,
            AuthProvider::Google => "Google"@,
            AuthProvider::Github => "Github"@,
        }
    }

    /// The provider that a lowercase name stands for, or the complaint about
    /// `given` when it names none.
    pub open spec fn parse(lower: Seq<char>, given: Seq<char>) -> Result<
        AuthProvider,
        Seq<char>,
    > {
        if lower == "local"@ {
            Ok(AuthProvider::Local)
        } else if lower == "google"@ {
            Ok(AuthProvider::Google)
        } else if lower == "github"@ {
            Ok(AuthProvider::Github)
        } else {
            Err("Invalid auth provider: "@ + given)
        }
    }

    pub fn to_str(&self) -> (r: &'static str)
        ensures
            r@ == self.name(),
    {
        match self {
            AuthProvider::Local => "Local",
            AuthProvider::Google => "Google",
            AuthProvider::Github => "Github",
        }
    }

    /// Reads a provider from its lowercase name; `given` is quoted in the
    /// complaint when the name is unknown.
    pub fn from_lowercase(lower: &str, given: &str) -> (r: Result<AuthProvider, String>)
        ensures
            match Self::parse(lower@, given@) {
                Ok(provider) => r == Ok::<AuthProvider, String>(provider),
                Err(complaint) => r is Err && r->Err_0@ == complaint,
            },
    {
        if same_text(lower, "local") {
            Ok(AuthProvider::Local)
        } else if same_text(lower, "google") {
            Ok(AuthProvider::Google)
        } else if same_text(lower, "github") {
            Ok(AuthProvider::Github)
        } else {
            Err(join2("Invalid auth provider: ", given))
        }
    }

    /// Reads a provider from its name, whatever the case of its letters.
    pub fn from_str(s: &str) -> (r: Result<AuthProvider, String>)
        ensures
            match Self::parse(lowercase_of(s@), s@) {
                Ok(provider) => r == Ok::<AuthProvider, String>(provider),
                Err(complaint) => r is Err && r->Err_0@ == complaint,
            },
    {
        let lower = to_lowercase(s);
        Self::from_lowercase(lower.as_str(), s)
    }
}

} // verus!
