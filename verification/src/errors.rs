//! The error vocabulary: what went wrong, and the status a caller sees.

use crate::text::{decimal, join2, join3, usize_to_string};
use axum::http::StatusCode;
use vstd::prelude::*;
use vstd::string::*;

verus! {

/// Status of a malformed or otherwise unacceptable request.
pub const STATUS_BAD_REQUEST: u16 = 400;

/// Status of a request that carries no valid proof of identity.
pub const STATUS_UNAUTHORIZED: u16 = 401;

/// Status of a request whose sender lacks the required role.
pub const STATUS_FORBIDDEN: u16 = 403;

/// Status of a request that names something that does not exist.
pub const STATUS_NOT_FOUND: u16 = 404;

/// Status of a request that collides with existing data.
pub const STATUS_CONFLICT: u16 = 409;

/// Status of a failure on the server's side.
pub const STATUS_INTERNAL_SERVER_ERROR: u16 = 500;

/// The text of a status as `http::StatusCode` displays it: the number and
/// the standard phrase that goes with it. `None` for a number that is no
/// status.
pub uninterp spec fn status_line(status: u16) -> Option<Seq<char>>;

/// The JSON object with the members `status` and `message`, in this order,
/// as `serde_json` writes it.
pub uninterp spec fn json_status_message(status: Seq<char>, message: Seq<char>) -> Seq<char>;

/// `http::StatusCode::from_u16` and the code's `Display` text. The numbers
/// from 100 to 999 are codes, no other number is; the text depends on the
/// number alone.
#[verifier::external_body]
fn status_text(status: u16) -> (r: Option<String>)
    ensures
        r is Some <==> 100 <= status <= 999,
        match r {
            Some(text) => status_line(status) == Some(text@),
            None => status_line(status) is None,
        },
{
    StatusCode::from_u16(status).ok().map(|code| code.to_string())
}

/// `serde_json::to_string` on the object with the members `status` and
/// `message`. The text depends on the two values alone.
#[verifier::external_body]
fn status_message_json(status: &str, message: &str) -> (r: String)
    ensures
        r@ == json_status_message(status@, message@),
{
    let mut body = serde_json::Map::new();
    body.insert("status".to_string(), serde_json::Value::from(status));
    body.insert("message".to_string(), serde_json::Value::from(message));
    serde_json::to_string(&body).unwrap_or_default()
}

/// The body sent to a caller when a request fails.
#[derive(Debug)]
pub struct ErrorResponse {
    pub status: String,
    pub message: String,
}

/// The mathematical content of an [`ErrorResponse`].
pub ghost struct ErrorResponseView {
    pub status: Seq<char>,
    pub message: Seq<char>,
}

impl View for ErrorResponse {
    type V = ErrorResponseView;

    open spec fn view(&self) -> ErrorResponseView {
        ErrorResponseView { status: self.status@, message: self.message@ }
    }
}

impl ErrorResponse {
    /// Renders the body as JSON.
    pub fn to_string(&self) -> (r: String)
        ensures
            r@ == json_status_message(self.status@, self.message@),
    {
        status_message_json(self.status.as_str(), self.message.as_str())
    }
}

/// A failure together with the status it is reported under.
#[derive(Debug)]
pub struct HttpError {
    pub message: String,
    pub status: u16,
}

/// The mathematical content of an [`HttpError`].
pub ghost struct HttpErrorView {
    pub message: Seq<char>,
    pub status: u16,
}

impl View for HttpError {
    type V = HttpErrorView;

    open spec fn view(&self) -> HttpErrorView {
        HttpErrorView { message: self.message@, status: self.status }
    }
}

/// How a status is named in the description of a failure: by its number and
/// standard phrase where it has one, by its bare number otherwise.
pub open spec fn status_name(status: u16, line: Option<Seq<char>>) -> Seq<char> {
    match line {
        Some(text) => text,
        None => decimal(status as nat),
    }
}

impl HttpErrorView {
    /// The description of the failure, given the text of its status.
    pub open spec fn described(self, line: Option<Seq<char>>) -> Seq<char> {
        "HttpError: message: "@ + self.message + ", status: "@ + status_name(self.status, line)
    }
}

/// The failure with the given status and message.
pub open spec fn http_error(status: u16, message: Seq<char>) -> HttpErrorView {
    HttpErrorView { message, status }
}

/// The kinds of failure the credential, session and access components report.
#[derive(Debug, Clone, Copy, PartialEq, Eq, Structural)]
pub enum ErrorMessage {
    EmptyPassword,
    ExceededMaxPasswordLength(usize),
    InvalidHashFormat,
    HashingError,
    InvalidToken,
    ServerError,
    WrongCredentials,
    EmailExist,
    UserNoLongerExist,
    TokenNotProvided,
    PermissionDenied,
    UserNotAuthenticated,
}

impl ErrorMessage {
    /// The sentence shown to a caller for this kind of failure.
    pub open spec fn text(self) -> Seq<char> {
        match self {
            ErrorMessage::EmptyPassword => "Password cannot be empty"@,
            ErrorMessage::ExceededMaxPasswordLength(len) => "Password exceeds max length: "@
                + decimal(len as nat) + " characters"@,
            ErrorMessage::InvalidHashFormat => "Password hash format is invalid"@,
            ErrorMessage::HashingError => "An error occurred while hashing the password"@,
            ErrorMessage::InvalidToken => "Token is invalid or malformed"@,
            ErrorMessage::ServerError => "Internal server error"@,
            ErrorMessage::WrongCredentials => "Incorrect email or password"@,
            ErrorMessage::EmailExist => "Email already exists"@,
            ErrorMessage::UserNoLongerExist => "User no longer exists"@,
            ErrorMessage::TokenNotProvided => "Authorization token not provided"@,
            ErrorMessage::PermissionDenied => "You do not have permission to access this resource"@,
            ErrorMessage::UserNotAuthenticated => "User authentication required"@,
        }
    }

    /// Renders the failure as the sentence shown to a caller.
    pub fn to_string(&self) -> (r: String)
        ensures
            r@ == self.text(),
    {
        match self {
            ErrorMessage::EmptyPassword => String::from_str("Password cannot be empty"),
            ErrorMessage::ExceededMaxPasswordLength(len) => {
                let digits = usize_to_string(*len);
                join3("Password exceeds max length: ", digits.as_str(), " characters")
            },
            ErrorMessage::InvalidHashFormat => String::from_str("Password hash format is invalid"),
            ErrorMessage::HashingError => String::from_str(
                "An error occurred while hashing the password",
            ),
            ErrorMessage::InvalidToken => String::from_str("Token is invalid or malformed"),
            ErrorMessage::ServerError => String::from_str("Internal server error"),
            ErrorMessage::WrongCredentials => String::from_str("Incorrect email or password"),
            ErrorMessage::EmailExist => String::from_str("Email already exists"),
            ErrorMessage::UserNoLongerExist => String::from_str("User no longer exists"),
            ErrorMessage::TokenNotProvided => String::from_str("Authorization token not provided"),
            ErrorMessage::PermissionDenied => String::from_str(
                "You do not have permission to access this resource",
            ),
            ErrorMessage::UserNotAuthenticated => String::from_str("User authentication required"),
        }
    }
}

impl HttpError {
    /// A failure with an explicit status.
    pub fn new(message: String, status: u16) -> (r: Self)
        ensures
            r@ == http_error(status, message@),
    {
        HttpError { message, status }
    }

    /// A failure on the server's side.
    pub fn server_error(message: String) -> (r: Self)
        ensures
            r@ == http_error(STATUS_INTERNAL_SERVER_ERROR, message@),
    {
        HttpError { message, status: STATUS_INTERNAL_SERVER_ERROR }
    }

    /// A request the caller can correct and send again.
    pub fn bad_request(message: String) -> (r: Self)
        ensures
            r@ == http_error(STATUS_BAD_REQUEST, message@),
    {
        HttpError { message, status: STATUS_BAD_REQUEST }
    }

    /// A request that collides with a record that must stay unique.
    pub fn unique_constraint_violation(message: String) -> (r: Self)
        ensures
            r@ == http_error(STATUS_CONFLICT, message@),
    {
        HttpError { message, status: STATUS_CONFLICT }
    }

    /// A request without valid proof of identity.
    pub fn unauthorized(message: String) -> (r: Self)
        ensures
            r@ == http_error(STATUS_UNAUTHORIZED, message@),
    {
        HttpError { message, status: STATUS_UNAUTHORIZED }
    }

    /// A request for something that does not exist.
    pub fn not_found(message: String) -> (r: Self)
        ensures
            r@ == http_error(STATUS_NOT_FOUND, message@),
    {
        HttpError { message, status: STATUS_NOT_FOUND }
    }

    /// A request from an identified caller who lacks the required role.
    pub fn forbidden(message: String) -> (r: Self)
        ensures
            r@ == http_error(STATUS_FORBIDDEN, message@),
    {
        HttpError { message, status: STATUS_FORBIDDEN }
    }

    /// Describes the failure, given the text of its status.
    pub fn describe(&self, line: Option<String>) -> (r: String)
        ensures
            r@ == self@.described(
                match line {
                    Some(text) => Some(text@),
                    None => None,
                },
            ),
    {
        let name = match line {
            Some(text) => text,
            None => usize_to_string(self.status as usize),
        };
        let mut out = join3("HttpError: message: ", self.message.as_str(), ", status: ");
        out.append(name.as_str());
        out
    }

    /// Describes the failure: its message and its status with the standard
    /// phrase.
    pub fn to_string(&self) -> (r: String)
        ensures
            r@ == self@.described(status_line(self.status)),
    {
        self.describe(status_text(self.status))
    }

    /// The status and body under which this failure is reported: the body's
    /// `status` field is always `fail`, its message is the failure's own.
    pub fn into_http_response(self) -> (r: (u16, ErrorResponse))
        ensures
            r.0 == self.status,
            r.1@ == (ErrorResponseView { status: "fail"@, message: self.message@ }),
    {
        (self.status, ErrorResponse { status: String::from_str("fail"), message: self.message })
    }
}

/// Why talking to an identity provider failed.
#[derive(Debug)]
pub enum OAuthError {
    /// The provider answered, but not with what the protocol asks for.
    OAuth(String),
    /// The provider could not be reached, or the connection broke.
    Http(String),
}

/// The mathematical content of an [`OAuthError`].
pub ghost enum OAuthErrorView {
    OAuth(Seq<char>),
    Http(Seq<char>),
}

impl View for OAuthError {
    type V = OAuthErrorView;

    open spec fn view(&self) -> OAuthErrorView {
        match self {
            OAuthError::OAuth(e) => OAuthErrorView::OAuth(e@),
            OAuthError::Http(e) => OAuthErrorView::Http(e@),
        }
    }
}

impl OAuthErrorView {
    /// The sentence that describes the failure.
    pub open spec fn text(self) -> Seq<char> {
        match self {
            OAuthErrorView::OAuth(e) => "OAuth error: "@ + e,
            OAuthErrorView::Http(e) => "HTTP error: "@ + e,
        }
    }
}

impl OAuthError {
    /// Renders the failure as a sentence.
    pub fn to_string(&self) -> (r: String)
        ensures
            r@ == self@.text(),
    {
        match self {
            OAuthError::OAuth(e) => join2("OAuth error: ", e.as_str()),
            OAuthError::Http(e) => join2("HTTP error: ", e.as_str()),
        }
    }
}

} // verus!
