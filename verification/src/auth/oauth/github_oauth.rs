//! Delegated login at GitHub, whose profile may come without an address.

use crate::auth::flow::{ProviderUser, ProviderUserView};
use crate::auth::model::{
    emails_view, GithubEmail, GithubEmailView, GithubUser, GithubUserView,
};
use crate::auth::oauth::{AuthorizationStart, ProviderClient};
use crate::config::OAuthConfig;
use crate::errors::{OAuthError, OAuthErrorView};
use crate::users::model::text_of;
use vstd::prelude::*;
use vstd::string::*;

verus! {

/// This application as a client of GitHub's login.
#[derive(Debug)]
pub struct GithubOAuth {
    pub client: ProviderClient,
}

/// The first address of a list that is both primary and verified.
pub open spec fn first_primary_verified(emails: Seq<GithubEmailView>) -> Option<Seq<char>>
    decreases emails.len(),
{
    if emails.len() == 0 {
        None
    } else if emails[0].primary && emails[0].verified {
        Some(emails[0].email)
    } else {
        first_primary_verified(emails.drop_first())
    }
}

/// The first address of a list that is verified.
pub open spec fn first_verified(emails: Seq<GithubEmailView>) -> Option<Seq<char>>
    decreases emails.len(),
{
    if emails.len() == 0 {
        None
    } else if emails[0].verified {
        Some(emails[0].email)
    } else {
        first_verified(emails.drop_first())
    }
}

/// The address to use out of a list of addresses: the first that is primary
/// and verified; failing that, the first that is verified; failing that,
/// none.
pub open spec fn preferred_email(emails: Seq<GithubEmailView>) -> Option<Seq<char>> {
    match first_primary_verified(emails) {
        Some(email) => Some(email),
        None => first_verified(emails),
    }
}

/// The first primary and verified address is the one at `i` where no entry
/// before `i` is both; there is none where no entry at all is both.
pub proof fn lemma_first_primary_verified(emails: Seq<GithubEmailView>, i: int)
    requires
        0 <= i <= emails.len(),
        forall|j: int| 0 <= j < i ==> !((#[trigger] emails[j]).primary && emails[j].verified),
        i < emails.len() ==> emails[i].primary && emails[i].verified,
    ensures
        first_primary_verified(emails) == if i < emails.len() {
            Some(emails[i].email)
        } else {
            None
        },
    decreases emails.len(),
{
    if emails.len() > 0 && i > 0 {
        let rest = emails.drop_first();
        assert forall|j: int| 0 <= j < i - 1 implies !((#[trigger] rest[j]).primary
            && rest[j].verified) by {
            assert(rest[j] == emails[j + 1]);
        }
        if i < emails.len() {
            assert(rest[i - 1] == emails[i]);
        }
        lemma_first_primary_verified(rest, i - 1);
    }
}

/// The first verified address is the one at `i` where no entry before `i`
/// is verified; there is none where no entry at all is.
pub proof fn lemma_first_verified(emails: Seq<GithubEmailView>, i: int)
    requires
        0 <= i <= emails.len(),
        forall|j: int| 0 <= j < i ==> !(#[trigger] emails[j]).verified,
        i < emails.len() ==> emails[i].verified,
    ensures
        first_verified(emails) == if i < emails.len() {
            Some(emails[i].email)
        } else {
            None
        },
    decreases emails.len(),
{
    if emails.len() > 0 && i > 0 {
        let rest = emails.drop_first();
        assert forall|j: int| 0 <= j < i - 1 implies !(#[trigger] rest[j]).verified by {
            assert(rest[j] == emails[j + 1]);
        }
        if i < emails.len() {
            assert(rest[i - 1] == emails[i]);
        }
        lemma_first_verified(rest, i - 1);
    }
}

/// The profile after the list of addresses was asked for: an address that
/// was found is put in; where none was found, or where the lookup failed,
/// the profile stays as it is.
pub open spec fn with_fallback(user: GithubUserView, found: Option<Seq<char>>) -> GithubUserView {
    match found {
        Some(email) => GithubUserView { email: Some(email), ..user },
        None => user,
    }
}

/// What a lookup of addresses found, if it found anything.
pub open spec fn found_email(lookup: Result<Option<String>, OAuthError>) -> Option<Seq<char>> {
    match lookup {
        Ok(Some(email)) => Some(email@),
        _ => None,
    }
}

/// The sentence that rejects a profile for which no address is known.
pub open spec fn no_email_text() -> Seq<char> {
    "No verified email address is available for this account"@
}

/// What GitHub's profile says of the person, in the form that every
/// provider's answer is brought to. Without an address no account can be
/// found or made, so such a profile is rejected. A user without a display
/// name goes by the login name.
pub open spec fn github_profile(user: GithubUserView) -> Result<ProviderUserView, OAuthErrorView> {
    match user.email {
        Some(email) => Ok(
            ProviderUserView {
                email,
                name: match user.name {
                    Some(name) => name,
                    None => user.login,
                },
                email_verified: true,
            },
        ),
        None => Err(OAuthErrorView::OAuth(no_email_text())),
    }
}

/// The content of a profile or of the failure to get one.
pub open spec fn profile_view(r: Result<ProviderUser, OAuthError>) -> Result<
    ProviderUserView,
    OAuthErrorView,
> {
    match r {
        Ok(profile) => Ok(profile@),
        Err(e) => Err(e@),
    }
}

impl GithubOAuth {
    /// The first scope asked of GitHub: the user's addresses.
    pub open spec fn first_scope() -> Seq<char> {
        "user:email"@
    }

    /// The second scope asked of GitHub: the user's profile.
    pub open spec fn second_scope() -> Seq<char> {
        "read:user"@
    }

    /// The client with the registration that the settings hold for GitHub.
    pub open spec fn new_spec(config: OAuthConfig) -> Self {
        GithubOAuth {
            client: ProviderClient {
                client_id: config.github_client_id,
                client_secret: config.github_client_secret,
                auth_url: config.github_auth_url,
                token_url: config.github_token_url,
                redirect_url: config.github_redirect_url,
            },
        }
    }

    /// The client with the registration that the settings hold for GitHub.
    pub fn new(config: &OAuthConfig) -> (r: Self)
        ensures
            r == Self::new_spec(*config),
    {
        GithubOAuth {
            client: ProviderClient {
                client_id: config.github_client_id.clone(),
                client_secret: config.github_client_secret.clone(),
                auth_url: config.github_auth_url.clone(),
                token_url: config.github_token_url.clone(),
                redirect_url: config.github_redirect_url.clone(),
            },
        }
    }

    /// Starts a login: draws a fresh anti-forgery token and a fresh proof
    /// key and builds the address of GitHub's consent page around them. The
    /// address asks for the user's addresses and profile. `None` where the
    /// registration holds no usable address.
    pub fn generate_auth_url(&self) -> (r: Option<AuthorizationStart>)
        ensures
            exists|csrf_token: Seq<char>, pkce_verifier: Seq<char>| #[trigger]
                self.client.starts(
                    Self::first_scope(),
                    Self::second_scope(),
                    r,
                    csrf_token,
                    pkce_verifier,
                ),
    {
        let r = self.client.generate("user:email", "read:user");
        proof {
            let (csrf_token, pkce_verifier) = choose|csrf_token: Seq<char>, pkce_verifier: Seq<char>| #[trigger]
                self.client.starts("user:email"@, "read:user"@, r, csrf_token, pkce_verifier);
            assert(self.client.starts(
                Self::first_scope(),
                Self::second_scope(),
                r,
                csrf_token,
                pkce_verifier,
            ));
        }
        r
    }

    /// Whether the profile came without an address, so that the list of the
    /// user's addresses must be asked for.
    pub fn needs_email_lookup(user: &GithubUser) -> (r: bool)
        ensures
            r == (user.email is None),
    {
        user.email.is_none()
    }

    /// Chooses the address to use out of the list that GitHub returns: the
    /// first that is primary and verified, else the first that is verified.
    pub fn select_email(emails: &Vec<GithubEmail>) -> (r: Option<String>)
        ensures
            text_of(r) == preferred_email(emails_view(emails@)),
    {
        let ghost views = emails_view(emails@);
        let mut verified: Option<usize> = None;
        let mut i: usize = 0;
        while i < emails.len()
            invariant
                i <= emails.len(),
                views == emails_view(emails@),
                forall|j: int|
                    0 <= j < i ==> !((#[trigger] views[j]).primary && views[j].verified),
                match verified {
                    Some(k) => k < i && views[k as int].verified && forall|j: int|
                        0 <= j < k ==> !(#[trigger] views[j]).verified,
                    None => forall|j: int| 0 <= j < i ==> !(#[trigger] views[j]).verified,
                },
            decreases emails.len() - i,
        {
            assert(views[i as int] == emails@[i as int]@);
            if emails[i].verified {
                if emails[i].primary {
                    proof {
                        lemma_first_primary_verified(views, i as int);
                    }
                    return Some(emails[i].email.clone());
                }
                if verified.is_none() {
                    verified = Some(i);
                }
            }
            i = i + 1;
        }
        proof {
            lemma_first_primary_verified(views, i as int);
        }
        match verified {
            Some(k) => {
                proof {
                    lemma_first_verified(views, k as int);
                    assert(views[k as int] == emails@[k as int]@);
                }
                Some(emails[k].email.clone())
            },
            None => {
                proof {
                    lemma_first_verified(views, i as int);
                }
                None
            },
        }
    }

    /// The profile after the list of addresses was asked for: an address
    /// that was found is put in; where none was found, or where the lookup
    /// failed, the profile stays as it is.
    pub fn with_fallback_email(
        user: GithubUser,
        lookup: Result<Option<String>, OAuthError>,
    ) -> (r: GithubUser)
        ensures
            r@ == with_fallback(user@, found_email(lookup)),
    {
        match lookup {
            Ok(Some(email)) => GithubUser {
                login: user.login,
                id: user.id,
                avatar_url: user.avatar_url,
                email: Some(email),
                name: user.name,
            },
            _ => user,
        }
    }

    /// What GitHub's profile says of the person, in the form that every
    /// provider's answer is brought to; a profile without an address is
    /// rejected.
    pub fn profile(user: GithubUser) -> (r: Result<ProviderUser, OAuthError>)
        ensures
            profile_view(r) == github_profile(user@),
    {
        match user.email {
            Some(email) => {
                let name = match user.name {
                    Some(name) => name,
                    None => user.login,
                };
                Ok(ProviderUser { email, name, email_verified: true })
            },
            None => Err(
                OAuthError::OAuth(
                    String::from_str("No verified email address is available for this account"),
                ),
            ),
        }
    }
}

} // verus!
