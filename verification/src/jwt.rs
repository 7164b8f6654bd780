//! Signed, time-bound session tokens that carry a subject.
//!
//! Signing and signature checking are done by the `jsonwebtoken` crate and the
//! clock is read through `chrono`; what is decided here, and proved, is when a
//! token is issued, how long it lives and what a checked token is worth at a
//! given time.

use vstd::prelude::*;
use crate::app_error::{internal, not_authorized, AppError};

verus! {

/// How long a token stays valid after it was issued, in seconds (30 days).
pub const TOKEN_LIFETIME_SECS: u64 = 2_592_000;

/// Why a token is refused.
#[derive(Clone, Copy, Debug, PartialEq, Eq, Structural)]
pub enum TokenError {
    /// The token is malformed, or its signature does not fit its payload.
    TokenInvalid,
    /// The token is correctly signed and its expiry time has passed.
    TokenExpired,
}

/// The payload of a session token.
#[derive(Debug)]
pub struct Claims {
    /// The user the token was issued to.
    pub sub: String,
    /// Issue time, in seconds since the Unix epoch.
    pub iat: u64,
    /// Expiry time, in seconds since the Unix epoch.
    pub exp: u64,
}

/// The mathematical value of [`Claims`].
pub struct ClaimsView {
    pub sub: Seq<char>,
    pub iat: u64,
    pub exp: u64,
}

impl View for Claims {
    type V = ClaimsView;

    open spec fn view(&self) -> ClaimsView {
        ClaimsView { sub: self.sub@, iat: self.iat, exp: self.exp }
    }
}

/// The token that `jsonwebtoken::encode` makes, under the default header
/// (HS256), of the claims `sub`, `iat` and `exp` with the key `secret`; `None`
/// where it reports an error.
pub uninterp spec fn encoded_token(secret: Seq<char>, sub: Seq<char>, iat: u64, exp: u64) -> Option<
    Seq<char>,
>;

/// The claims `(sub, iat, exp)` that `jsonwebtoken::decode` reads from `token`
/// once it has checked the HS256 signature with the key `secret`, expiry left
/// unchecked; `None` where it reports an error or a claim is missing.
pub uninterp spec fn decoded_claims(secret: Seq<char>, token: Seq<char>) -> Option<
    (Seq<char>, u64, u64),
>;

/// The decoded claims of a token as a [`ClaimsView`].
pub open spec fn token_claims(secret: Seq<char>, token: Seq<char>) -> Option<ClaimsView> {
    match decoded_claims(secret, token) {
        Some(c) => Some(ClaimsView { sub: c.0, iat: c.1, exp: c.2 }),
        None => None,
    }
}

/// Calls `jsonwebtoken::encode` with the default header on a JSON object of the
/// three claims. Trusted: the result is the function [`encoded_token`] of the
/// arguments, which claims only that equal arguments give equal tokens.
#[verifier::external_body]
fn sign_claims(secret: &str, subject: &str, issued_at: u64, expires_at: u64) -> (token: Option<
    String,
>)
    ensures
        token matches Some(t) ==> encoded_token(secret@, subject@, issued_at, expires_at) == Some(
            t@,
        ),
        token is None ==> encoded_token(secret@, subject@, issued_at, expires_at) is None,
{
    let mut claims = serde_json::Map::new();
    claims.insert("sub".to_owned(), serde_json::Value::from(subject));
    claims.insert("iat".to_owned(), serde_json::Value::from(issued_at));
    claims.insert("exp".to_owned(), serde_json::Value::from(expires_at));
    let key = jsonwebtoken::EncodingKey::from_secret(secret.as_bytes());
    jsonwebtoken::encode(&jsonwebtoken::Header::default(), &claims, &key).ok()
}

/// Calls `jsonwebtoken::decode` for HS256 with expiry validation switched off,
/// and picks the three claims out of the JSON object it returns. Trusted: the
/// result is the function [`decoded_claims`] of the arguments.
#[verifier::external_body]
fn read_claims(secret: &str, token: &str) -> (claims: Option<Claims>)
    ensures
        claims matches Some(c) ==> decoded_claims(secret@, token@) == Some((c.sub@, c.iat, c.exp)),
        claims is None ==> decoded_claims(secret@, token@) is None,
{
    let mut validation = jsonwebtoken::Validation::new(jsonwebtoken::Algorithm::HS256);
    validation.validate_exp = false;
    let key = jsonwebtoken::DecodingKey::from_secret(secret.as_bytes());
    let data = jsonwebtoken::decode::<serde_json::Value>(token, &key, &validation).ok()?;
    let sub = data.claims.get("sub")?.as_str()?.to_owned();
    let iat = data.claims.get("iat")?.as_u64()?;
    let exp = data.claims.get("exp")?.as_u64()?;
    Some(Claims { sub, iat, exp })
}

/// Reads the clock through `chrono::Utc::now`: seconds since the Unix epoch.
/// Nothing is claimed of the value.
#[verifier::external_body]
pub(crate) fn unix_now() -> i64 {
    chrono::Utc::now().timestamp()
}

/// What claims read from a token are worth at time `now`: no claims, no
/// token; an expiry before `now`, expired; otherwise the subject.
pub open spec fn verdict(claims: Option<ClaimsView>, now: int) -> Result<Seq<char>, TokenError> {
    match claims {
        None => Err(TokenError::TokenInvalid),
        Some(c) => if c.exp < now {
            Err(TokenError::TokenExpired)
        } else {
            Ok(c.sub)
        },
    }
}

/// Whether an executable verdict is the mathematical one.
pub open spec fn verdict_is(r: Result<String, TokenError>, v: Result<Seq<char>, TokenError>) -> bool {
    match r {
        Ok(s) => v == Ok::<Seq<char>, TokenError>(s@),
        Err(e) => v == Err::<Seq<char>, TokenError>(e),
    }
}

/// Judges the claims read from a token at time `now`.
pub fn check_claims(claims: Option<Claims>, now: i64) -> (r: Result<String, TokenError>)
    ensures
        verdict_is(
            r,
            verdict(
                match claims {
                    Some(c) => Some(c@),
                    None => None,
                },
                now as int,
            ),
        ),
{
    match claims {
        None => Err(TokenError::TokenInvalid),
        Some(c) => {
            if now > 0 && c.exp < now as u64 {
                Err(TokenError::TokenExpired)
            } else {
                Ok(c.sub)
            }
        },
    }
}

/// Checks `token` against `secret` at time `now` and returns its subject.
///
/// The token is `TokenInvalid` exactly when the codec rejects it, and
/// `TokenExpired` exactly when the codec accepts it and its expiry lies before
/// `now`.
pub fn verify_token_at(secret: &str, token: &str, now: i64) -> (r: Result<String, TokenError>)
    ensures
        verdict_is(r, verdict(token_claims(secret@, token@), now as int)),
        r == Err::<String, TokenError>(TokenError::TokenInvalid) <==> decoded_claims(
            secret@,
            token@,
        ) is None,
        r == Err::<String, TokenError>(TokenError::TokenExpired) <==> (decoded_claims(
            secret@,
            token@,
        ) matches Some(c) && c.2 < now),
{
    check_claims(read_claims(secret, token), now)
}

/// The token issued to `subject` at time `now`, if one is: the codec must sign
/// the claims into a token that is not empty, and read the same claims back
/// from what it signed.
pub open spec fn issued(secret: Seq<char>, subject: Seq<char>, now: int) -> Option<Seq<char>> {
    if 0 <= now <= i64::MAX {
        let iat = now as u64;
        let exp = (now + TOKEN_LIFETIME_SECS) as u64;
        match encoded_token(secret, subject, iat, exp) {
            Some(t) => if t.len() > 0 && decoded_claims(secret, t) == Some((subject, iat, exp)) {
                Some(t)
            } else {
                None
            },
            None => None,
        }
    } else {
        None
    }
}

/// Issues a token for `subject` at time `now`, valid for
/// [`TOKEN_LIFETIME_SECS`] seconds.
///
/// A fresh token is read back before it is handed out, so every token this
/// returns is not empty and passes [`verify_token_at`] until it expires. Any
/// failure is the generic internal error.
pub fn issue_token_at(secret: &str, subject: &str, now: i64) -> (r: Result<String, AppError>)
    ensures
        match r {
            Ok(t) => issued(secret@, subject@, now as int) == Some(t@),
            Err(e) => issued(secret@, subject@, now as int) is None && e@ == internal(),
        },
{
    if now < 0 {
        return Err(AppError::internal());
    }
    let iat: u64 = now as u64;
    let exp: u64 = iat + TOKEN_LIFETIME_SECS;
    match sign_claims(secret, subject, iat, exp) {
        None => Err(AppError::internal()),
        Some(token) => {
            if token.as_str().is_empty() {
                return Err(AppError::internal());
            }
            match read_claims(secret, token.as_str()) {
                Some(c) => {
                    let wanted = subject.to_owned();
                    if c.iat == iat && c.exp == exp && c.sub == wanted {
                        Ok(token)
                    } else {
                        Err(AppError::internal())
                    }
                },
                None => Err(AppError::internal()),
            }
        },
    }
}

/// Issues a token for `username` at the current time.
pub fn create_token(secret: &str, username: String) -> (r: Result<String, AppError>)
    ensures
        match r {
            Ok(t) => exists|now: int| issued(secret@, username@, now) == Some(t@),
            Err(e) => e@ == internal(),
        },
{
    let now = unix_now();
    issue_token_at(secret, username.as_str(), now)
}

/// Checks `token` against `secret` at the current time. Every refusal, invalid
/// or expired, is the one generic 401.
pub fn validate_token(secret: &str, token: &str) -> (r: Result<bool, AppError>)
    ensures
        match r {
            Ok(valid) => valid && decoded_claims(secret@, token@) is Some,
            Err(e) => e@ == not_authorized(),
        },
        decoded_claims(secret@, token@) is None ==> r is Err,
{
    let now = unix_now();
    match verify_token_at(secret, token, now) {
        Ok(_) => Ok(true),
        Err(_) => Err(AppError::not_authorized()),
    }
}

/// A token that was issued verifies as its subject at every time up to its
/// expiry, the moment of issuance included.
pub proof fn lemma_issued_token_verifies(
    secret: Seq<char>,
    subject: Seq<char>,
    issued_at: int,
    token: Seq<char>,
    now: int,
)
    requires
        issued(secret, subject, issued_at) == Some(token),
        now <= issued_at + TOKEN_LIFETIME_SECS,
    ensures
        verdict(token_claims(secret, token), now) == Ok::<Seq<char>, TokenError>(subject),
{
}

/// A token that the codec accepts and whose expiry lies before `now` is
/// expired, never invalid.
pub proof fn lemma_past_expiry_is_expired(secret: Seq<char>, token: Seq<char>, now: int)
    requires
        token_claims(secret, token) matches Some(c) && c.exp < now,
    ensures
        verdict(token_claims(secret, token), now) == Err::<Seq<char>, TokenError>(
            TokenError::TokenExpired,
        ),
{
}

/// A token that was issued is expired at every time after its expiry.
pub proof fn lemma_issued_token_expires(
    secret: Seq<char>,
    subject: Seq<char>,
    issued_at: int,
    token: Seq<char>,
    now: int,
)
    requires
        issued(secret, subject, issued_at) == Some(token),
        now > issued_at + TOKEN_LIFETIME_SECS,
    ensures
        verdict(token_claims(secret, token), now) == Err::<Seq<char>, TokenError>(
            TokenError::TokenExpired,
        ),
{
}

} // verus!
