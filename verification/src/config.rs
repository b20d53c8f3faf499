//! The settings that the components are handed at start-up. They are plain
//! values: nothing here reads the environment.

use vstd::prelude::*;
use vstd::string::*;

verus! {

/// The port served when none is configured.
pub const DEFAULT_PORT: u16 = 3000;

/// Settings of the session component.
#[derive(Debug, Clone)]
pub struct AppConfig {
    /// The secret that session tokens are signed with.
    pub jwt_secret: String,
    /// How long a session lasts, in minutes.
    pub jwt_maxage: i64,
    pub port: u16,
}

impl AppConfig {
    /// The bytes of the signing secret.
    pub open spec fn secret_bytes(self) -> Seq<u8> {
        vstd::utf8::encode_utf8(self.jwt_secret@)
    }
}

/// Where the user records live.
#[derive(Debug, Clone)]
pub struct DatabaseConfig {
    pub database_url: String,
}

/// How outgoing mail is handed over.
#[derive(Debug, Clone)]
pub struct EmailConfig {
    pub smtp_host: String,
    pub smtp_port: u16,
    pub smtp_username: String,
    pub smtp_password: String,
    pub smtp_from: String,
}

/// The registrations of this application with its identity providers.
#[derive(Debug, Clone)]
pub struct OAuthConfig {
    pub google_client_id: String,
    pub google_client_secret: String,
    pub google_redirect_url: String,
    pub google_auth_url: String,
    pub google_token_url: String,
    pub github_client_id: String,
    pub github_client_secret: String,
    pub github_auth_url: String,
    pub github_token_url: String,
    pub github_redirect_url: String,
}

impl OAuthConfig {
    /// The registrations with the given credentials and callback addresses.
    /// The providers' own endpoints are fixed.
    pub fn new(
        google_client_id: String,
        google_client_secret: String,
        google_redirect_url: String,
        github_client_id: String,
        github_client_secret: String,
        github_redirect_url: String,
    ) -> (r: OAuthConfig)
        ensures
            r.google_client_id == google_client_id,
            r.google_client_secret == google_client_secret,
            r.google_redirect_url == google_redirect_url,
            r.github_client_id == github_client_id,
            r.github_client_secret == github_client_secret,
            r.github_redirect_url == github_redirect_url,
            r.google_auth_url@ == "https://accounts.google.com/o/oauth2/v2/auth"@,
            r.google_token_url@ == "https://oauth2.googleapis.com/token"@,
            r.github_auth_url@ == "https://github.com/login/oauth/authorize"@,
            r.github_token_url@ == "https://github.com/login/oauth/access_token"@,
    {
        OAuthConfig {
            google_client_id,
            google_client_secret,
            google_redirect_url,
            google_auth_url: String::from_str("https://accounts.google.com/o/oauth2/v2/auth"),
            google_token_url: String::from_str("https://oauth2.googleapis.com/token"),
            github_client_id,
            github_client_secret,
            github_auth_url: String::from_str("https://github.com/login/oauth/authorize"),
            github_token_url: String::from_str("https://github.com/login/oauth/access_token"),
            github_redirect_url,
        }
    }
}

/// All settings together.
#[derive(Debug)]
pub struct Config {
    pub app: AppConfig,
    pub database: DatabaseConfig,
    pub email: EmailConfig,
    pub oauth: OAuthConfig,
}

} // verus!
