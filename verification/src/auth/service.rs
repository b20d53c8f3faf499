//! Password hashing and session tokens.
//!
//! Passwords are hashed with Argon2 under a fresh random salt and stored in
//! the self-describing PHC text form. Session tokens are compact signed
//! tokens (HMAC-SHA256) that carry the subject, the time of issue and the
//! time of expiry.

use crate::auth::model::{TokenClaims, TokenClaimsView};
use crate::clock::{now_timestamp, CLOCK_LIMIT};
use crate::errors::{http_error, ErrorMessage, HttpError, HttpErrorView, STATUS_UNAUTHORIZED};
use argon2::password_hash::rand_core::OsRng;
use argon2::password_hash::{PasswordHash, PasswordHasher, PasswordVerifier, SaltString};
use argon2::Argon2;
use jsonwebtoken::{Algorithm, DecodingKey, EncodingKey, Header, Validation};
use vstd::prelude::*;
use vstd::string::*;

verus! {

/// The longest password accepted, in characters.
pub const MAX_PASSWORD_LENGTH: usize = 64;

/// The PHC text that Argon2 (default parameters) computes for a password
/// under a salt given in B64 text, or `None` where the salt is refused or
/// hashing fails.
pub uninterp spec fn argon2_phc(password: Seq<char>, salt: Seq<char>) -> Option<Seq<char>>;

/// Whether a text parses as a PHC password hash.
pub uninterp spec fn phc_well_formed(hashed: Seq<char>) -> bool;

/// Whether Argon2, run on `password` with the algorithm, version, parameters
/// and salt that the PHC text `hashed` names, arrives at the digest that
/// `hashed` holds.
pub uninterp spec fn argon2_verifies(password: Seq<char>, hashed: Seq<char>) -> bool;

/// The compact HS256 token for the claims `sub`, `iat`, `exp` (in this order)
/// under `secret`, or the text of the failure where encoding fails.
pub uninterp spec fn jwt_hs256(sub: Seq<char>, iat: usize, exp: usize, secret: Seq<u8>) -> Result<
    Seq<char>,
    Seq<char>,
>;

/// The claims `(sub, iat, exp)` of a token whose HS256 signature under
/// `secret` is genuine and whose payload holds all three, expiry not looked
/// at; `None` for every other text.
pub uninterp spec fn jwt_hs256_claims(token: Seq<char>, secret: Seq<u8>) -> Option<
    (Seq<char>, usize, usize),
>;

/// The longest password, in bytes, that Argon2 takes.
pub const ARGON2_MAX_PASSWORD_BYTES: usize = 0xFFFF_FFFF;

/// Whether a salt serves for hashing: Argon2 with its default parameters
/// hashes every password under it that is not too long for Argon2. A
/// password of so many characters that even at four bytes each it stays
/// within Argon2's limit is such a password.
pub open spec fn salt_serves(salt: Seq<char>) -> bool {
    forall|password: Seq<char>|
        4 * password.len() <= ARGON2_MAX_PASSWORD_BYTES ==> #[trigger] argon2_phc(
            password,
            salt,
        ) is Some
}

/// `SaltString::generate` with the operating system's random source: the
/// B64 text of 16 random bytes. Which text comes is not known. Whichever
/// comes serves for hashing: it is what `SaltString::from_b64` accepts, it
/// decodes to 16 bytes where Argon2 asks for 8 at least, and with the
/// default parameters and a password within Argon2's limit of 2^32 - 1
/// bytes no later step of the hashing fails.
#[verifier::external_body]
pub(crate) fn fresh_salt() -> (salt: String)
    ensures
        salt_serves(salt@),
{
    SaltString::generate(&mut OsRng).as_str().to_string()
}

/// `Argon2::default().hash_password`, rendered as PHC text. The result
/// depends on the password and the salt alone. A hash that was computed is
/// not empty (it begins with the name of the algorithm), parses as PHC text
/// and verifies against the password it was computed from: verification
/// recomputes the digest from the parameters and salt that the text carries.
#[verifier::external_body]
fn argon2_hash(password: &str, salt: &str) -> (r: Option<String>)
    ensures
        r is Some <==> argon2_phc(password@, salt@) is Some,
        r matches Some(h) ==> argon2_phc(password@, salt@) == Some(h@),
        r matches Some(h) ==> h@.len() > 0 && phc_well_formed(h@) && argon2_verifies(
            password@,
            h@,
        ),
{
    let salt = SaltString::from_b64(salt).ok()?;
    Argon2::default().hash_password(password.as_bytes(), &salt).ok().map(|h| h.to_string())
}

/// `PasswordHash::new`: whether the text parses as a PHC password hash.
#[verifier::external_body]
fn phc_parses(hashed: &str) -> (r: bool)
    ensures
        r == phc_well_formed(hashed@),
{
    PasswordHash::new(hashed).is_ok()
}

/// `Argon2::default().verify_password` on a parsed PHC text: whether the
/// password leads to the digest in the text. Any failure of the recomputation
/// counts as a mismatch.
#[verifier::external_body]
fn argon2_matches(password: &str, hashed: &str) -> (r: bool)
    requires
        phc_well_formed(hashed@),
    ensures
        r == argon2_verifies(password@, hashed@),
{
    match PasswordHash::new(hashed) {
        Ok(parsed) => Argon2::default().verify_password(password.as_bytes(), &parsed).is_ok(),
        Err(_) => false,
    }
}

/// `jsonwebtoken::encode` with the default header (HS256) and an HMAC key
/// made of `secret`; the payload is the object `sub`, `iat`, `exp`, and a
/// failure is returned as its `Display` text. The result depends on the
/// claims and the secret alone, and decoding a token under the secret it was
/// made with gives the claims back: the signature is recomputed from the same
/// bytes and key.
#[verifier::external_body]
fn jwt_encode(claims: &TokenClaims, secret: &[u8]) -> (r: Result<String, String>)
    ensures
        match r {
            Ok(t) => jwt_hs256(claims.sub@, claims.iat, claims.exp, secret@) == Ok::<
                Seq<char>,
                Seq<char>,
            >(t@) && jwt_hs256_claims(t@, secret@) == Some((claims.sub@, claims.iat, claims.exp)),
            Err(e) => jwt_hs256(claims.sub@, claims.iat, claims.exp, secret@) == Err::<
                Seq<char>,
                Seq<char>,
            >(e@),
        },
{
    let mut payload = serde_json::Map::new();
    payload.insert("sub".to_string(), serde_json::Value::from(claims.sub.as_str()));
    payload.insert("iat".to_string(), serde_json::Value::from(claims.iat));
    payload.insert("exp".to_string(), serde_json::Value::from(claims.exp));
    jsonwebtoken::encode(&Header::default(), &payload, &EncodingKey::from_secret(secret))
        .map_err(|e| e.to_string())
}

/// `jsonwebtoken::decode` for HS256 with an HMAC key made of `secret`, with
/// the library's own expiry check switched off, so that the result depends on
/// the token and the secret alone. A token whose payload lacks a textual
/// `sub` or a whole, non-negative `iat` or `exp` counts as undecodable.
#[verifier::external_body]
fn jwt_decode(token: &str, secret: &[u8]) -> (r: Option<TokenClaims>)
    ensures
        r is Some <==> jwt_hs256_claims(token@, secret@) is Some,
        r matches Some(c) ==> jwt_hs256_claims(token@, secret@) == Some((c.sub@, c.iat, c.exp)),
{
    let mut validation = Validation::new(Algorithm::HS256);
    validation.validate_exp = false;
    let key = DecodingKey::from_secret(secret);
    let data = jsonwebtoken::decode::<serde_json::Value>(token, &key, &validation).ok()?;
    let sub = data.claims.get("sub")?.as_str()?.to_string();
    let iat = usize::try_from(data.claims.get("iat")?.as_u64()?).ok()?;
    let exp = usize::try_from(data.claims.get("exp")?.as_u64()?).ok()?;
    Some(TokenClaims { sub, iat, exp })
}

/// Why no session token was issued.
#[derive(Debug)]
pub enum TokenError {
    /// The subject is empty.
    InvalidSubject,
    /// The time of issue or of expiry cannot be written as a claim: it lies
    /// before the epoch or beyond what the machine can count.
    InvalidTime,
    /// Encoding or signing failed; the text says why.
    Signing(String),
}

/// The mathematical content of a [`TokenError`].
pub ghost enum TokenErrorView {
    InvalidSubject,
    InvalidTime,
    Signing(Seq<char>),
}

impl View for TokenError {
    type V = TokenErrorView;

    open spec fn view(&self) -> TokenErrorView {
        match self {
            TokenError::InvalidSubject => TokenErrorView::InvalidSubject,
            TokenError::InvalidTime => TokenErrorView::InvalidTime,
            TokenError::Signing(why) => TokenErrorView::Signing(why@),
        }
    }
}

impl TokenErrorView {
    /// The sentence that describes the failure.
    pub open spec fn text(self) -> Seq<char> {
        match self {
            TokenErrorView::InvalidSubject => "InvalidSubject"@,
            TokenErrorView::InvalidTime => "InvalidTime"@,
            TokenErrorView::Signing(why) => why,
        }
    }
}

impl TokenError {
    /// Renders the failure as a sentence.
    pub fn to_string(&self) -> (r: String)
        ensures
            r@ == self@.text(),
    {
        match self {
            TokenError::InvalidSubject => String::from_str("InvalidSubject"),
            TokenError::InvalidTime => String::from_str("InvalidTime"),
            TokenError::Signing(why) => why.clone(),
        }
    }
}

/// The content of what issuing a session returned.
pub open spec fn issued_view(r: Result<String, TokenError>) -> Result<Seq<char>, TokenErrorView> {
    match r {
        Ok(t) => Ok(t@),
        Err(e) => Err(e@),
    }
}

/// The stateless credential and session component.
pub struct AuthService;

impl AuthService {
    /// Whether a password may be hashed or compared at all: it must hold at
    /// least one character and at most [`MAX_PASSWORD_LENGTH`].
    pub open spec fn password_check(password: Seq<char>) -> Result<(), ErrorMessage> {
        if password.len() == 0 {
            Err(ErrorMessage::EmptyPassword)
        } else if password.len() > MAX_PASSWORD_LENGTH {
            Err(ErrorMessage::ExceededMaxPasswordLength(MAX_PASSWORD_LENGTH))
        } else {
            Ok(())
        }
    }

    /// What hashing returns, given what Argon2 made of the password.
    pub open spec fn hash_outcome(password: Seq<char>, hashed: Option<Seq<char>>) -> Result<
        Seq<char>,
        ErrorMessage,
    > {
        match Self::password_check(password) {
            Err(e) => Err(e),
            Ok(_) => match hashed {
                Some(h) => Ok(h),
                None => Err(ErrorMessage::HashingError),
            },
        }
    }

    /// What comparing returns, given whether the stored text parses and
    /// whether the password leads to its digest.
    pub open spec fn compare_outcome(password: Seq<char>, parses: bool, matches: bool) -> Result<
        bool,
        ErrorMessage,
    > {
        match Self::password_check(password) {
            Err(e) => Err(e),
            Ok(_) => if parses {
                Ok(matches)
            } else {
                Err(ErrorMessage::InvalidHashFormat)
            },
        }
    }

    /// What comparing a password with a stored hash returns.
    pub open spec fn compare_spec(password: Seq<char>, hashed: Seq<char>) -> Result<
        bool,
        ErrorMessage,
    > {
        Self::compare_outcome(password, phc_well_formed(hashed), argon2_verifies(password, hashed))
    }

    /// The claims of a session issued at `now` for `ttl_minutes`, or why none
    /// can be written.
    pub open spec fn claims_at(subject: Seq<char>, now: int, ttl_minutes: int) -> Result<
        TokenClaimsView,
        TokenErrorView,
    > {
        let expires = now + 60 * ttl_minutes;
        if subject.len() == 0 {
            Err(TokenErrorView::InvalidSubject)
        } else if 0 <= now <= usize::MAX && 0 <= expires <= usize::MAX && expires <= i64::MAX {
            Ok(TokenClaimsView { sub: subject, iat: now as usize, exp: expires as usize })
        } else {
            Err(TokenErrorView::InvalidTime)
        }
    }

    /// Whether a lifetime can be added to every reading of the clock: it is
    /// not negative, and the expiry that comes of it can be written as a
    /// claim whatever the clock reads.
    pub open spec fn lifetime_fits(ttl_minutes: int) -> bool {
        &&& 0 <= ttl_minutes
        &&& CLOCK_LIMIT + 60 * ttl_minutes <= usize::MAX
        &&& CLOCK_LIMIT + 60 * ttl_minutes <= i64::MAX
    }

    /// What issuing a session at `now` returns: the signed token for the
    /// claims of that moment, or why there is none.
    pub open spec fn issue_spec(
        subject: Seq<char>,
        secret: Seq<u8>,
        ttl_minutes: int,
        now: int,
    ) -> Result<Seq<char>, TokenErrorView> {
        match Self::claims_at(subject, now, ttl_minutes) {
            Err(e) => Err(e),
            Ok(c) => match jwt_hs256(c.sub, c.iat, c.exp, secret) {
                Ok(t) => Ok(t),
                Err(why) => Err(TokenErrorView::Signing(why)),
            },
        }
    }

    /// Whether `r` is what issuing a session at `now` returns.
    pub open spec fn issued_at(
        r: Result<String, TokenError>,
        subject: Seq<char>,
        secret: Seq<u8>,
        ttl_minutes: int,
        now: int,
    ) -> bool {
        issued_view(r) == Self::issue_spec(subject, secret, ttl_minutes, now)
    }

    /// What verifying a token at `now` returns, given the claims that its
    /// signature vouches for: the subject while the expiry lies ahead, and
    /// one and the same failure in every other case.
    pub open spec fn decode_outcome(claims: Option<(Seq<char>, usize, usize)>, now: int) -> Result<
        Seq<char>,
        HttpErrorView,
    > {
        match claims {
            Some((sub, iat, exp)) if exp > now => Ok(sub),
            _ => Err(http_error(STATUS_UNAUTHORIZED, ErrorMessage::InvalidToken.text())),
        }
    }

    /// Whether a token, verified under `secret`, yields `subject` at every
    /// moment before `expires`, and fails from that moment on.
    pub open spec fn carries(
        token: Seq<char>,
        secret: Seq<u8>,
        subject: Seq<char>,
        expires: int,
    ) -> bool {
        forall|at: int|
            #[trigger] Self::decode_outcome(jwt_hs256_claims(token, secret), at) == if at
                < expires {
                Ok::<Seq<char>, HttpErrorView>(subject)
            } else {
                Err::<Seq<char>, HttpErrorView>(
                    http_error(STATUS_UNAUTHORIZED, ErrorMessage::InvalidToken.text()),
                )
            }
    }

    /// Whether `r` is what issuing a session at `now` returns, and a token
    /// that was issued verifies until its expiry and not beyond.
    pub open spec fn issued_and_valid(
        r: Result<String, TokenError>,
        subject: Seq<char>,
        secret: Seq<u8>,
        ttl_minutes: int,
        now: int,
    ) -> bool {
        &&& Self::issued_at(r, subject, secret, ttl_minutes, now)
        &&& r matches Ok(token) ==> Self::carries(
            token@,
            secret,
            subject,
            now + 60 * ttl_minutes,
        )
    }

    /// Whether `r` is what verifying `token` at `now` returns.
    pub open spec fn decoded_at(
        r: Result<String, HttpError>,
        token: Seq<char>,
        secret: Seq<u8>,
        now: int,
    ) -> bool {
        match Self::decode_outcome(jwt_hs256_claims(token, secret), now) {
            Ok(sub) => r is Ok && r->Ok_0@ == sub,
            Err(e) => r is Err && r->Err_0@ == e,
        }
    }

    /// Checks the length of a password, before any hashing is done.
    pub fn check_password(password: &str) -> (r: Result<(), ErrorMessage>)
        ensures
            r == Self::password_check(password@),
    {
        if password.is_empty() {
            return Err(ErrorMessage::EmptyPassword);
        }
        if password.unicode_len() > MAX_PASSWORD_LENGTH {
            return Err(ErrorMessage::ExceededMaxPasswordLength(MAX_PASSWORD_LENGTH));
        }
        Ok(())
    }

    /// What hashing returns for a password of acceptable length, given what
    /// Argon2 made of it.
    pub fn hashing_result(hashed: Option<String>) -> (r: Result<String, ErrorMessage>)
        ensures
            match hashed {
                Some(h) => r is Ok && r->Ok_0@ == h@,
                None => r == Err::<String, ErrorMessage>(ErrorMessage::HashingError),
            },
    {
        match hashed {
            Some(h) => Ok(h),
            None => Err(ErrorMessage::HashingError),
        }
    }

    /// The verdict on the form of a stored hash, given whether it parses.
    pub fn hash_format(parses: bool) -> (r: Result<(), ErrorMessage>)
        ensures
            r == if parses {
                Ok::<(), ErrorMessage>(())
            } else {
                Err::<(), ErrorMessage>(ErrorMessage::InvalidHashFormat)
            },
    {
        if parses {
            Ok(())
        } else {
            Err(ErrorMessage::InvalidHashFormat)
        }
    }

    /// What issuing returns once the claims are written, given what signing
    /// them gave.
    pub fn signing_result(signed: Result<String, String>) -> (r: Result<String, TokenError>)
        ensures
            match signed {
                Ok(token) => r is Ok && r->Ok_0@ == token@,
                Err(why) => r is Err && r->Err_0@ == TokenErrorView::Signing(why@),
            },
    {
        match signed {
            Ok(token) => Ok(token),
            Err(why) => Err(TokenError::Signing(why)),
        }
    }

    /// Hashes a password under the given salt (B64 text). The same password
    /// and salt always give the same hash.
    pub fn hash_password_with_salt(password: &str, salt: &str) -> (r: Result<String, ErrorMessage>)
        ensures
            match Self::hash_outcome(password@, argon2_phc(password@, salt@)) {
                Ok(h) => r is Ok && r->Ok_0@ == h,
                Err(e) => r == Err::<String, ErrorMessage>(e),
            },
            r matches Ok(h) ==> h@.len() > 0 && Self::compare_spec(password@, h@) == Ok::<
                bool,
                ErrorMessage,
            >(true),
    {
        match Self::check_password(password) {
            Err(e) => Err(e),
            Ok(_) => Self::hashing_result(argon2_hash(password, salt)),
        }
    }

    /// Hashes a password under a fresh random salt.
    ///
    /// An empty or overlong password is refused before any hashing; every
    /// other password is hashed. The hash that is returned is the Argon2
    /// hash of the password under some salt, and comparing the same password
    /// with it succeeds.
    pub fn hash_password(password: &str) -> (r: Result<String, ErrorMessage>)
        ensures
            Self::password_check(password@) matches Err(e) ==> r == Err::<String, ErrorMessage>(e),
            Self::password_check(password@) is Ok ==> r is Ok,
            r matches Ok(h) ==> exists|salt: Seq<char>| #[trigger]
                argon2_phc(password@, salt) == Some(h@),
            r matches Ok(h) ==> h@.len() > 0 && Self::compare_spec(password@, h@) == Ok::<
                bool,
                ErrorMessage,
            >(true),
    {
        match Self::check_password(password) {
            Err(e) => Err(e),
            Ok(_) => {
                let salt = fresh_salt();
                Self::hash_password_with_salt(password, salt.as_str())
            },
        }
    }

    /// Compares a password with a stored hash.
    ///
    /// A mismatch is an answer (`Ok(false)`), not a failure; failures are an
    /// empty or overlong password and a stored text that is no PHC hash.
    pub fn compare(password: &str, hashed_password: &str) -> (r: Result<bool, ErrorMessage>)
        ensures
            r == Self::compare_spec(password@, hashed_password@),
    {
        match Self::check_password(password) {
            Err(e) => Err(e),
            Ok(_) => match Self::hash_format(phc_parses(hashed_password)) {
                Err(e) => Err(e),
                Ok(_) => Ok(argon2_matches(password, hashed_password)),
            },
        }
    }

    /// The claims of a session for `subject` that starts at `now` and lasts
    /// `ttl_minutes`.
    pub fn session_claims(subject: &str, now: i64, ttl_minutes: i64) -> (r: Result<
        TokenClaims,
        TokenError,
    >)
        ensures
            match Self::claims_at(subject@, now as int, ttl_minutes as int) {
                Ok(c) => r is Ok && r->Ok_0@ == c,
                Err(e) => r is Err && r->Err_0@ == e,
            },
    {
        if subject.is_empty() {
            return Err(TokenError::InvalidSubject);
        }
        if now < 0 {
            return Err(TokenError::InvalidTime);
        }
        let span = match ttl_minutes.checked_mul(60) {
            Some(s) => s,
            None => { return Err(TokenError::InvalidTime); },
        };
        let expires = match now.checked_add(span) {
            Some(e) => e,
            None => { return Err(TokenError::InvalidTime); },
        };
        if expires < 0 {
            return Err(TokenError::InvalidTime);
        }
        if now as u64 > usize::MAX as u64 || expires as u64 > usize::MAX as u64 {
            return Err(TokenError::InvalidTime);
        }
        Ok(TokenClaims { sub: String::from_str(subject), iat: now as usize, exp: expires as usize })
    }

    /// Issues a session token as of the time `now`.
    pub fn create_token_at(user_id: &str, secret: &[u8], ttl_minutes: i64, now: i64) -> (r: Result<
        String,
        TokenError,
    >)
        ensures
            Self::issued_at(r, user_id@, secret@, ttl_minutes as int, now as int),
            r matches Ok(t) ==> Self::claims_at(user_id@, now as int, ttl_minutes as int) matches Ok(
                c,
            ) && jwt_hs256_claims(t@, secret@) == Some((c.sub, c.iat, c.exp)),
            r matches Ok(t) ==> Self::carries(t@, secret@, user_id@, now + 60 * ttl_minutes),
    {
        match Self::session_claims(user_id, now, ttl_minutes) {
            Err(e) => Err(e),
            Ok(claims) => Self::signing_result(jwt_encode(&claims, secret)),
        }
    }

    /// Issues a session token for `user_id` that is valid from now for
    /// `ttl_minutes`.
    ///
    /// An empty subject is refused. For every other subject the result is
    /// what [`AuthService::create_token_at`] returns for some reading that
    /// the clock can give, and a token that is issued verifies under the
    /// same secret until its expiry and not beyond. Where the lifetime fits
    /// every reading of the clock, the times never stand in the way: the
    /// token is issued unless signing itself fails.
    pub fn create_token(user_id: &str, secret: &[u8], ttl_minutes: i64) -> (r: Result<
        String,
        TokenError,
    >)
        ensures
            user_id@.len() == 0 ==> r is Err && r->Err_0@ is InvalidSubject,
            user_id@.len() > 0 && Self::lifetime_fits(ttl_minutes as int) ==> r is Ok || (r is Err
                && r->Err_0@ is Signing),
            exists|now: int|
                0 <= now < CLOCK_LIMIT && #[trigger] Self::issued_and_valid(
                    r,
                    user_id@,
                    secret@,
                    ttl_minutes as int,
                    now,
                ),
    {
        let now = now_timestamp();
        let r = Self::create_token_at(user_id, secret, ttl_minutes, now);
        assert(Self::issued_and_valid(r, user_id@, secret@, ttl_minutes as int, now as int));
        r
    }

    /// The subject of a set of claims while their expiry lies ahead of `now`.
    pub fn subject_if_valid(claims: Option<TokenClaims>, now: i64) -> (r: Result<String, HttpError>)
        ensures
            match Self::decode_outcome(
                match claims {
                    Some(c) => Some((c.sub@, c.iat, c.exp)),
                    None => None,
                },
                now as int,
            ) {
                Ok(sub) => r is Ok && r->Ok_0@ == sub,
                Err(e) => r is Err && r->Err_0@ == e,
            },
    {
        match claims {
            Some(c) => {
                if now < 0 || (c.exp as u64) > (now as u64) {
                    Ok(c.sub)
                } else {
                    Err(HttpError::unauthorized(ErrorMessage::InvalidToken.to_string()))
                }
            },
            None => Err(HttpError::unauthorized(ErrorMessage::InvalidToken.to_string())),
        }
    }

    /// Verifies a session token as of the time `now`.
    pub fn decode_token_at(token: &str, secret: &[u8], now: i64) -> (r: Result<String, HttpError>)
        ensures
            Self::decoded_at(r, token@, secret@, now as int),
    {
        Self::subject_if_valid(jwt_decode(token, secret), now)
    }

    /// Verifies a session token and returns its subject.
    ///
    /// A forged, malformed or expired token gives one and the same failure.
    /// The result is what [`AuthService::decode_token_at`] returns for some
    /// reading that the clock can give.
    pub fn decode_token(token: &str, secret: &[u8]) -> (r: Result<String, HttpError>)
        ensures
            jwt_hs256_claims(token@, secret@) is None ==> r is Err,
            r matches Err(e) ==> e@ == http_error(
                STATUS_UNAUTHORIZED,
                ErrorMessage::InvalidToken.text(),
            ),
            exists|now: int|
                0 <= now < CLOCK_LIMIT && #[trigger] Self::decoded_at(r, token@, secret@, now),
    {
        let now = now_timestamp();
        let r = Self::decode_token_at(token, secret, now);
        assert(Self::decoded_at(r, token@, secret@, now as int));
        r
    }
}

} // verus!
