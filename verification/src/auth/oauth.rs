//! Delegated login at an identity provider: the authorization-code flow
//! with a proof key (PKCE) and an anti-forgery token.

pub mod exchange;
pub mod github_oauth;
pub mod google_oauth;

use oauth2::basic::BasicClient;
use oauth2::{
    AuthUrl, ClientId, CsrfToken, PkceCodeChallenge, PkceCodeVerifier, RedirectUrl, Scope,
};
use vstd::prelude::*;
use vstd::string::*;

verus! {

/// The shortest proof key that a provider accepts, in bytes.
pub const PKCE_MIN_LENGTH: usize = 43;

/// The longest proof key that a provider accepts, in bytes.
pub const PKCE_MAX_LENGTH: usize = 128;

/// Whether a proof key has a length that providers accept.
pub open spec fn pkce_length_ok(verifier: Seq<char>) -> bool {
    PKCE_MIN_LENGTH <= vstd::utf8::encode_utf8(verifier).len() <= PKCE_MAX_LENGTH
}

/// The address that sends a user to the provider's consent page: the
/// authorization endpoint `auth_url` with the client's identifier, the
/// anti-forgery token as `state`, the SHA-256 challenge of the proof key,
/// the callback address and the two scopes as its query. `None` where
/// `auth_url` or `redirect_url` is no address.
pub uninterp spec fn authorization_url(
    auth_url: Seq<char>,
    client_id: Seq<char>,
    redirect_url: Seq<char>,
    first_scope: Seq<char>,
    second_scope: Seq<char>,
    state: Seq<char>,
    verifier: Seq<char>,
) -> Option<Seq<char>>;

/// `CsrfToken::new_random`: the text of sixteen random bytes. Nothing is
/// promised of it.
#[verifier::external_body]
pub(crate) fn fresh_csrf_token() -> (token: String) {
    CsrfToken::new_random().secret().clone()
}

/// The proof key that `PkceCodeChallenge::new_random_sha256` draws: the text
/// of 32 random bytes in the URL-safe alphabet without padding, which is 43
/// bytes long. Nothing else is promised of it.
#[verifier::external_body]
pub(crate) fn fresh_pkce_verifier() -> (verifier: String)
    ensures
        pkce_length_ok(verifier@),
{
    PkceCodeChallenge::new_random_sha256().1.secret().clone()
}

/// The authorization request of an `oauth2` client, rendered by
/// `AuthorizationRequest::url`: the client is made of the identifier and the
/// two addresses, the challenge by `PkceCodeChallenge::from_code_verifier_sha256`.
/// The address depends on the arguments alone. A proof key of another length
/// than providers accept is left out, since the challenge is computed for no
/// such key.
#[verifier::external_body]
pub(crate) fn authorize_url(
    auth_url: &str,
    client_id: &str,
    redirect_url: &str,
    first_scope: &str,
    second_scope: &str,
    state: &str,
    verifier: &str,
) -> (r: Option<String>)
    requires
        pkce_length_ok(verifier@),
    ensures
        match r {
            Some(url) => authorization_url(
                auth_url@,
                client_id@,
                redirect_url@,
                first_scope@,
                second_scope@,
                state@,
                verifier@,
            ) == Some(url@),
            None => authorization_url(
                auth_url@,
                client_id@,
                redirect_url@,
                first_scope@,
                second_scope@,
                state@,
                verifier@,
            ) is None,
        },
{
    let client = BasicClient::new(ClientId::new(client_id.to_string()))
        .set_auth_uri(AuthUrl::new(auth_url.to_string()).ok()?)
        .set_redirect_uri(RedirectUrl::new(redirect_url.to_string()).ok()?);
    let key = PkceCodeVerifier::new(verifier.to_string());
    let token = CsrfToken::new(state.to_string());
    let (url, _) = client
        .authorize_url(move || token)
        .add_scope(Scope::new(first_scope.to_string()))
        .add_scope(Scope::new(second_scope.to_string()))
        .set_pkce_challenge(PkceCodeChallenge::from_code_verifier_sha256(&key))
        .url();
    Some(url.to_string())
}

/// What the start of a delegated login hands out: the address to send the
/// user to, and the two secrets that the caller keeps until the provider
/// calls back.
#[derive(Debug)]
pub struct AuthorizationStart {
    pub auth_url: String,
    pub csrf_token: String,
    pub pkce_verifier: String,
}

/// The mathematical content of an [`AuthorizationStart`].
pub ghost struct AuthorizationStartView {
    pub auth_url: Seq<char>,
    pub csrf_token: Seq<char>,
    pub pkce_verifier: Seq<char>,
}

impl View for AuthorizationStart {
    type V = AuthorizationStartView;

    open spec fn view(&self) -> AuthorizationStartView {
        AuthorizationStartView {
            auth_url: self.auth_url@,
            csrf_token: self.csrf_token@,
            pkce_verifier: self.pkce_verifier@,
        }
    }
}

/// The registration of this application with one identity provider.
#[derive(Debug, Clone)]
pub struct ProviderClient {
    pub client_id: String,
    pub client_secret: String,
    pub auth_url: String,
    pub token_url: String,
    pub redirect_url: String,
}

impl ProviderClient {
    /// The start of a login with the given secrets: the address embeds
    /// exactly this anti-forgery token and the challenge of exactly this
    /// proof key. There is no start with a proof key of a length that
    /// providers do not accept.
    pub open spec fn start_with(
        self,
        first_scope: Seq<char>,
        second_scope: Seq<char>,
        csrf_token: Seq<char>,
        pkce_verifier: Seq<char>,
    ) -> Option<AuthorizationStartView> {
        if pkce_length_ok(pkce_verifier) {
            match authorization_url(
                self.auth_url@,
                self.client_id@,
                self.redirect_url@,
                first_scope,
                second_scope,
                csrf_token,
                pkce_verifier,
            ) {
                Some(auth_url) => Some(
                    AuthorizationStartView { auth_url, csrf_token, pkce_verifier },
                ),
                None => None,
            }
        } else {
            None
        }
    }

    /// Whether `r` is the start of a login with the given pair of secrets,
    /// the proof key being of an accepted length.
    pub open spec fn starts(
        self,
        first_scope: Seq<char>,
        second_scope: Seq<char>,
        r: Option<AuthorizationStart>,
        csrf_token: Seq<char>,
        pkce_verifier: Seq<char>,
    ) -> bool {
        &&& pkce_length_ok(pkce_verifier)
        &&& start_view(r) == self.start_with(first_scope, second_scope, csrf_token, pkce_verifier)
    }

    /// Builds the start of a login from the given secrets.
    pub fn authorization(
        &self,
        first_scope: &str,
        second_scope: &str,
        csrf_token: String,
        pkce_verifier: String,
    ) -> (r: Option<AuthorizationStart>)
        ensures
            start_view(r) == self.start_with(
                first_scope@,
                second_scope@,
                csrf_token@,
                pkce_verifier@,
            ),
    {
        let length = pkce_verifier.as_str().as_bytes().len();
        if length < PKCE_MIN_LENGTH || length > PKCE_MAX_LENGTH {
            return None;
        }
        match authorize_url(
            self.auth_url.as_str(),
            self.client_id.as_str(),
            self.redirect_url.as_str(),
            first_scope,
            second_scope,
            csrf_token.as_str(),
            pkce_verifier.as_str(),
        ) {
            Some(auth_url) => Some(AuthorizationStart { auth_url, csrf_token, pkce_verifier }),
            None => None,
        }
    }

    /// Starts a login with fresh secrets.
    pub fn generate(&self, first_scope: &str, second_scope: &str) -> (r: Option<
        AuthorizationStart,
    >)
        ensures
            exists|csrf_token: Seq<char>, pkce_verifier: Seq<char>| #[trigger]
                self.starts(first_scope@, second_scope@, r, csrf_token, pkce_verifier),
    {
        let csrf_token = fresh_csrf_token();
        let pkce_verifier = fresh_pkce_verifier();
        let ghost csrf = csrf_token@;
        let ghost key = pkce_verifier@;
        let r = self.authorization(first_scope, second_scope, csrf_token, pkce_verifier);
        assert(self.starts(first_scope@, second_scope@, r, csrf, key));
        r
    }
}

/// The content of an optional start of a login.
pub open spec fn start_view(r: Option<AuthorizationStart>) -> Option<AuthorizationStartView> {
    match r {
        Some(start) => Some(start@),
        None => None,
    }
}

} // verus!
