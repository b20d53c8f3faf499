//! The exchange of an authorization code for the profile of the person who
//! logged in, as a state machine: the token is asked for, then the profile,
//! and, where the profile comes without an address, the list of the
//! person's addresses.

use crate::auth::flow::{ProviderUser, ProviderUserView};
use crate::auth::model::{
    emails_view, AuthProvider, GithubEmail, GithubEmailView, GithubUser, GithubUserView,
    GoogleUser, GoogleUserView,
};
use crate::auth::oauth::github_oauth::{
    github_profile, no_email_text, preferred_email, profile_view, with_fallback, GithubOAuth,
};
use crate::auth::oauth::google_oauth::GoogleOAuth;
use crate::errors::{OAuthError, OAuthErrorView};
use vstd::prelude::*;
use vstd::string::*;

verus! {

/// Where Google tells who the bearer of an access token is.
pub open spec fn google_profile_url() -> Seq<char> {
    "https://www.googleapis.com/oauth2/v3/userinfo"@
}

/// Where GitHub tells who the bearer of an access token is.
pub open spec fn github_profile_url() -> Seq<char> {
    "https://api.github.com/user"@
}

/// Where GitHub lists the addresses of the bearer of an access token.
pub open spec fn github_emails_url() -> Seq<char> {
    "https://api.github.com/user/emails"@
}

/// The name under which this application calls on the providers.
pub open spec fn user_agent() -> Seq<char> {
    "e-commerce_rust"@
}

/// The name under which this application calls on the providers; GitHub
/// answers no request that comes without one.
pub fn user_agent_name() -> (r: &'static str)
    ensures
        r@ == user_agent(),
{
    "e-commerce_rust"
}

/// Where an exchange stands.
#[derive(Debug)]
pub enum ExchangeState {
    /// The callback has handed over the code and the proof key.
    Received { provider: AuthProvider, code: String, pkce_verifier: String },
    /// The provider's token endpoint is trading the code for a token.
    Requesting { provider: AuthProvider },
    /// The provider is reading the profile out.
    ReadingProfile { provider: AuthProvider, access_token: String },
    /// GitHub is listing the addresses of a user whose profile has none.
    ReadingEmails { user: GithubUser },
    Finished,
}

/// The mathematical content of an [`ExchangeState`].
pub ghost enum ExchangeStateView {
    Received { provider: AuthProvider, code: Seq<char>, pkce_verifier: Seq<char> },
    Requesting { provider: AuthProvider },
    ReadingProfile { provider: AuthProvider, access_token: Seq<char> },
    ReadingEmails { user: GithubUserView },
    Finished,
}

impl View for ExchangeState {
    type V = ExchangeStateView;

    open spec fn view(&self) -> ExchangeStateView {
        match self {
            ExchangeState::Received {
                provider,
                code,
                pkce_verifier,
            } => ExchangeStateView::Received {
                provider: *provider,
                code: code@,
                pkce_verifier: pkce_verifier@,
            },
            ExchangeState::Requesting { provider } => ExchangeStateView::Requesting {
                provider: *provider,
            },
            ExchangeState::ReadingProfile {
                provider,
                access_token,
            } => ExchangeStateView::ReadingProfile {
                provider: *provider,
                access_token: access_token@,
            },
            ExchangeState::ReadingEmails { user } => ExchangeStateView::ReadingEmails {
                user: user@,
            },
            ExchangeState::Finished => ExchangeStateView::Finished,
        }
    }
}

/// What an exchange asks its surroundings to do next.
#[derive(Debug)]
pub enum ExchangeEffect {
    /// Trade the code and the proof key for an access token at the
    /// provider's token endpoint.
    RequestToken { provider: AuthProvider, code: String, pkce_verifier: String },
    /// Read Google's profile of the bearer of the token.
    GetGoogleProfile { url: String, access_token: String },
    /// Read GitHub's profile of the bearer of the token.
    GetGithubProfile { url: String, access_token: String },
    /// Read GitHub's list of the addresses of the bearer of the token.
    GetGithubEmails { url: String, access_token: String },
    /// The exchange is over: here is the profile, or why there is none.
    Finish { outcome: Result<ProviderUser, OAuthError> },
}

/// The mathematical content of an [`ExchangeEffect`].
pub ghost enum ExchangeEffectView {
    RequestToken { provider: AuthProvider, code: Seq<char>, pkce_verifier: Seq<char> },
    GetGoogleProfile { url: Seq<char>, access_token: Seq<char> },
    GetGithubProfile { url: Seq<char>, access_token: Seq<char> },
    GetGithubEmails { url: Seq<char>, access_token: Seq<char> },
    Finish { outcome: Result<ProviderUserView, OAuthErrorView> },
}

impl View for ExchangeEffect {
    type V = ExchangeEffectView;

    open spec fn view(&self) -> ExchangeEffectView {
        match self {
            ExchangeEffect::RequestToken {
                provider,
                code,
                pkce_verifier,
            } => ExchangeEffectView::RequestToken {
                provider: *provider,
                code: code@,
                pkce_verifier: pkce_verifier@,
            },
            ExchangeEffect::GetGoogleProfile {
                url,
                access_token,
            } => ExchangeEffectView::GetGoogleProfile { url: url@, access_token: access_token@ },
            ExchangeEffect::GetGithubProfile {
                url,
                access_token,
            } => ExchangeEffectView::GetGithubProfile { url: url@, access_token: access_token@ },
            ExchangeEffect::GetGithubEmails {
                url,
                access_token,
            } => ExchangeEffectView::GetGithubEmails { url: url@, access_token: access_token@ },
            ExchangeEffect::Finish { outcome } => ExchangeEffectView::Finish {
                outcome: profile_view(*outcome),
            },
        }
    }
}

/// What has just happened in an exchange.
#[derive(Debug)]
pub enum ExchangeEvent {
    /// The exchange begins.
    Start,
    /// The token endpoint has issued an access token.
    TokenIssued { access_token: String },
    /// Google has read the profile out.
    GoogleProfileRead { user: GoogleUser },
    /// GitHub has read the profile out.
    GithubProfileRead { user: GithubUser },
    /// GitHub has listed the addresses.
    GithubEmailsRead { emails: Vec<GithubEmail> },
    /// The provider refused, answered with something else than was asked
    /// for, or could not be reached.
    Failed { error: OAuthError },
}

/// The mathematical content of an [`ExchangeEvent`].
pub ghost enum ExchangeEventView {
    Start,
    TokenIssued { access_token: Seq<char> },
    GoogleProfileRead { user: GoogleUserView },
    GithubProfileRead { user: GithubUserView },
    GithubEmailsRead { emails: Seq<GithubEmailView> },
    Failed { error: OAuthErrorView },
}

impl View for ExchangeEvent {
    type V = ExchangeEventView;

    open spec fn view(&self) -> ExchangeEventView {
        match self {
            ExchangeEvent::Start => ExchangeEventView::Start,
            ExchangeEvent::TokenIssued { access_token } => ExchangeEventView::TokenIssued {
                access_token: access_token@,
            },
            ExchangeEvent::GoogleProfileRead { user } => ExchangeEventView::GoogleProfileRead {
                user: user@,
            },
            ExchangeEvent::GithubProfileRead { user } => ExchangeEventView::GithubProfileRead {
                user: user@,
            },
            ExchangeEvent::GithubEmailsRead { emails } => ExchangeEventView::GithubEmailsRead {
                emails: emails_view(emails@),
            },
            ExchangeEvent::Failed { error } => ExchangeEventView::Failed { error: error@ },
        }
    }
}

/// The end of an exchange with the given outcome.
pub open spec fn finish(outcome: Result<ProviderUserView, OAuthErrorView>) -> (
    ExchangeStateView,
    ExchangeEffectView,
) {
    (ExchangeStateView::Finished, ExchangeEffectView::Finish { outcome })
}

/// The sentence that ends an exchange which was begun for no provider.
pub open spec fn no_provider_text() -> Seq<char> {
    "No identity provider stands behind a local account"@
}

/// The sentence that ends an exchange in which something happened that its
/// state does not expect.
pub open spec fn out_of_turn_text() -> Seq<char> {
    "The identity provider answered out of turn"@
}

/// What an exchange does once the token was issued: it reads the profile
/// at the provider that the login went to.
pub open spec fn read_profile(provider: AuthProvider, access_token: Seq<char>) -> (
    ExchangeStateView,
    ExchangeEffectView,
) {
    match provider {
        AuthProvider::Google => (
            ExchangeStateView::ReadingProfile { provider, access_token },
            ExchangeEffectView::GetGoogleProfile { url: google_profile_url(), access_token },
        ),
        AuthProvider::Github => (
            ExchangeStateView::ReadingProfile { provider, access_token },
            ExchangeEffectView::GetGithubProfile { url: github_profile_url(), access_token },
        ),
        AuthProvider::Local => finish(Err(OAuthErrorView::OAuth(no_provider_text()))),
    }
}

/// What an exchange does with GitHub's profile: a profile with an address
/// ends the exchange; for one without, the list of addresses is read.
pub open spec fn with_github_profile(user: GithubUserView, access_token: Seq<char>) -> (
    ExchangeStateView,
    ExchangeEffectView,
) {
    if user.email is None {
        (
            ExchangeStateView::ReadingEmails { user },
            ExchangeEffectView::GetGithubEmails { url: github_emails_url(), access_token },
        )
    } else {
        finish(github_profile(user))
    }
}

/// The next state and effect of an exchange.
///
/// A failure to read the list of addresses does not by itself end the
/// exchange in failure: the profile is judged as it stands, and a profile
/// that still has no address is rejected for that reason.
pub open spec fn exchange_next(state: ExchangeStateView, event: ExchangeEventView) -> (
    ExchangeStateView,
    ExchangeEffectView,
) {
    match (state, event) {
        (
            ExchangeStateView::Received { provider, code, pkce_verifier },
            ExchangeEventView::Start,
        ) => if provider == AuthProvider::Local {
            finish(Err(OAuthErrorView::OAuth(no_provider_text())))
        } else {
            (
                ExchangeStateView::Requesting { provider },
                ExchangeEffectView::RequestToken { provider, code, pkce_verifier },
            )
        },
        (
            ExchangeStateView::Requesting { provider },
            ExchangeEventView::TokenIssued { access_token },
        ) => read_profile(provider, access_token),
        (
            ExchangeStateView::ReadingProfile { provider: AuthProvider::Google, access_token },
            ExchangeEventView::GoogleProfileRead { user },
        ) => finish(Ok(GoogleOAuth::profile_of(user))),
        (
            ExchangeStateView::ReadingProfile { provider: AuthProvider::Github, access_token },
            ExchangeEventView::GithubProfileRead { user },
        ) => with_github_profile(user, access_token),
        (
            ExchangeStateView::ReadingEmails { user },
            ExchangeEventView::GithubEmailsRead { emails },
        ) => finish(github_profile(with_fallback(user, preferred_email(emails)))),
        (ExchangeStateView::ReadingEmails { user }, ExchangeEventView::Failed { error }) => finish(
            github_profile(user),
        ),
        (ExchangeStateView::Requesting { provider }, ExchangeEventView::Failed { error }) => finish(
            Err(error),
        ),
        (
            ExchangeStateView::ReadingProfile { provider, access_token },
            ExchangeEventView::Failed { error },
        ) => finish(Err(error)),
        _ => finish(Err(OAuthErrorView::OAuth(out_of_turn_text()))),
    }
}

/// The end of an exchange with the given outcome.
pub fn finished(outcome: Result<ProviderUser, OAuthError>) -> (r: (ExchangeState, ExchangeEffect))
    ensures
        (r.0@, r.1@) == finish(profile_view(outcome)),
{
    (ExchangeState::Finished, ExchangeEffect::Finish { outcome })
}

/// One step of an exchange: asks for the token, then for the profile, then
/// (at GitHub, for a profile without an address) for the list of addresses,
/// and brings what it learns into the form that every provider's answer is
/// brought to.
pub fn exchange_code(state: ExchangeState, event: ExchangeEvent) -> (r: (
    ExchangeState,
    ExchangeEffect,
))
    ensures
        (r.0@, r.1@) == exchange_next(state@, event@),
{
    match (state, event) {
        (ExchangeState::Received { provider, code, pkce_verifier }, ExchangeEvent::Start) => {
            match provider {
                AuthProvider::Local => finished(
                    Err(
                        OAuthError::OAuth(
                            String::from_str("No identity provider stands behind a local account"),
                        ),
                    ),
                ),
                _ => (
                    ExchangeState::Requesting { provider },
                    ExchangeEffect::RequestToken { provider, code, pkce_verifier },
                ),
            }
        },
        (ExchangeState::Requesting { provider }, ExchangeEvent::TokenIssued { access_token }) => {
            match provider {
                AuthProvider::Google => {
                    let bearer = access_token.clone();
                    (
                        ExchangeState::ReadingProfile { provider, access_token },
                        ExchangeEffect::GetGoogleProfile {
                            url: String::from_str("https://www.googleapis.com/oauth2/v3/userinfo"),
                            access_token: bearer,
                        },
                    )
                },
                AuthProvider::Github => {
                    let bearer = access_token.clone();
                    (
                        ExchangeState::ReadingProfile { provider, access_token },
                        ExchangeEffect::GetGithubProfile {
                            url: String::from_str("https://api.github.com/user"),
                            access_token: bearer,
                        },
                    )
                },
                AuthProvider::Local => finished(
                    Err(
                        OAuthError::OAuth(
                            String::from_str("No identity provider stands behind a local account"),
                        ),
                    ),
                ),
            }
        },
        (
            ExchangeState::ReadingProfile { provider: AuthProvider::Google, access_token },
            ExchangeEvent::GoogleProfileRead { user },
        ) => finished(Ok(GoogleOAuth::profile(user))),
        (
            ExchangeState::ReadingProfile { provider: AuthProvider::Github, access_token },
            ExchangeEvent::GithubProfileRead { user },
        ) => {
            if GithubOAuth::needs_email_lookup(&user) {
                (
                    ExchangeState::ReadingEmails { user },
                    ExchangeEffect::GetGithubEmails {
                        url: String::from_str("https://api.github.com/user/emails"),
                        access_token,
                    },
                )
            } else {
                finished(GithubOAuth::profile(user))
            }
        },
        (ExchangeState::ReadingEmails { user }, ExchangeEvent::GithubEmailsRead { emails }) => {
            let lookup = Ok(GithubOAuth::select_email(&emails));
            finished(GithubOAuth::profile(GithubOAuth::with_fallback_email(user, lookup)))
        },
        (ExchangeState::ReadingEmails { user }, ExchangeEvent::Failed { error }) => {
            finished(GithubOAuth::profile(GithubOAuth::with_fallback_email(user, Err(error))))
        },
        (ExchangeState::Requesting { provider }, ExchangeEvent::Failed { error }) => finished(
            Err(error),
        ),
        (
            ExchangeState::ReadingProfile { provider, access_token },
            ExchangeEvent::Failed { error },
        ) => finished(Err(error)),
        _ => finished(
            Err(OAuthError::OAuth(String::from_str("The identity provider answered out of turn"))),
        ),
    }
}

/// An exchange is over exactly when its effect is the outcome.
pub proof fn exchange_ends_with_its_outcome(state: ExchangeStateView, event: ExchangeEventView)
    ensures
        exchange_next(state, event).1 is Finish <==> exchange_next(state, event).0
            == ExchangeStateView::Finished,
{
}

/// Where GitHub's profile comes without an address, the address that the
/// exchange settles on is the preferred one of the list: the first that is
/// primary and verified, else the first that is verified. Where the list
/// holds no verified address, the exchange ends without a profile.
pub proof fn fallback_address_is_the_preferred_one(
    user: GithubUserView,
    emails: Seq<GithubEmailView>,
)
    requires
        user.email is None,
    ensures
        exchange_next(
            ExchangeStateView::ReadingEmails { user },
            ExchangeEventView::GithubEmailsRead { emails },
        ).1 == (ExchangeEffectView::Finish {
            outcome: match preferred_email(emails) {
                Some(email) => Ok(
                    ProviderUserView {
                        email,
                        name: match user.name {
                            Some(name) => name,
                            None => user.login,
                        },
                        email_verified: true,
                    },
                ),
                None => Err(OAuthErrorView::OAuth(no_email_text())),
            },
        }),
{
}

} // verus!
