//! Delegated login at Google.

use crate::auth::flow::{ProviderUser, ProviderUserView};
use crate::auth::model::{GoogleUser, GoogleUserView};
use crate::auth::oauth::{AuthorizationStart, ProviderClient};
use crate::config::OAuthConfig;
use vstd::prelude::*;
use vstd::string::*;

verus! {

/// This application as a client of Google's login.
#[derive(Debug)]
pub struct GoogleOAuth {
    pub client: ProviderClient,
}

impl GoogleOAuth {
    /// The first scope asked of Google: the user's address.
    pub open spec fn first_scope() -> Seq<char> {
        "email"@
    }

    /// The second scope asked of Google: the user's public profile.
    pub open spec fn second_scope() -> Seq<char> {
        "profile"@
    }

    /// The client with the registration that the settings hold for Google.
    pub open spec fn new_spec(config: OAuthConfig) -> Self {
        GoogleOAuth {
            client: ProviderClient {
                client_id: config.google_client_id,
                client_secret: config.google_client_secret,
                auth_url: config.google_auth_url,
                token_url: config.google_token_url,
                redirect_url: config.google_redirect_url,
            },
        }
    }

    /// The client with the registration that the settings hold for Google.
    pub fn new(config: &OAuthConfig) -> (r: Self)
        ensures
            r == Self::new_spec(*config),
    {
        GoogleOAuth {
            client: ProviderClient {
                client_id: config.google_client_id.clone(),
                client_secret: config.google_client_secret.clone(),
                auth_url: config.google_auth_url.clone(),
                token_url: config.google_token_url.clone(),
                redirect_url: config.google_redirect_url.clone(),
            },
        }
    }

    /// Starts a login: draws a fresh anti-forgery token and a fresh proof
    /// key and builds the address of Google's consent page around them. The
    /// address asks for the user's address and profile. `None` where the
    /// registration holds no usable address.
    pub fn generate_auth_url(&self) -> (r: Option<AuthorizationStart>)
        ensures
            exists|csrf_token: Seq<char>, pkce_verifier: Seq<char>| #[trigger]
                self.client.starts(
                    Self::first_scope(),
                    Self::second_scope(),
                    r,
                    csrf_token,
                    pkce_verifier,
                ),
    {
        let r = self.client.generate("email", "profile");
        proof {
            let (csrf_token, pkce_verifier) = choose|csrf_token: Seq<char>, pkce_verifier: Seq<char>| #[trigger]
                self.client.starts("email"@, "profile"@, r, csrf_token, pkce_verifier);
            assert(self.client.starts(
                Self::first_scope(),
                Self::second_scope(),
                r,
                csrf_token,
                pkce_verifier,
            ));
        }
        r
    }

    /// What Google's profile says of the person, in the form that every
    /// provider's answer is brought to.
    pub open spec fn profile_of(user: GoogleUserView) -> ProviderUserView {
        ProviderUserView {
            email: user.email,
            name: user.name,
            email_verified: user.email_verified,
        }
    }

    /// What Google's profile says of the person, in the form that every
    /// provider's answer is brought to.
    pub fn profile(user: GoogleUser) -> (r: ProviderUser)
        ensures
            r@ == Self::profile_of(user@),
    {
        ProviderUser { email: user.email, name: user.name, email_verified: user.email_verified }
    }
}

} // verus!
