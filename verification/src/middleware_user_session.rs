//! The guard in front of every protected route.
//!
//! A request passes when its bearer token is the current token of a live user
//! and the token itself checks out. The store is asked first and the token is
//! checked afterwards whatever the store said, so that a token nobody holds and
//! a token with a bad signature take the same path and get the same answer.

use vstd::prelude::*;
use crate::app_error::{internal, not_authorized, AppError, AppErrorView};
use crate::jwt::{decoded_claims, token_claims, unix_now, verdict, verify_token_at, TokenError};
use crate::session_store::{session_of, user_view, SessionStore};
use crate::text::{occurs_at, starts_with};
use crate::token_wrapper::TokenWrapper;
use crate::user::{text_view, User, UserView};

verus! {

/// The store could not be asked.
#[derive(Clone, Copy, Debug, PartialEq, Eq, Structural)]
pub struct StoreFailure;

/// Why a request is refused. The causes are told apart here and nowhere else:
/// the client gets the same answer for all but a store failure.
#[derive(Clone, Copy, Debug, PartialEq, Eq, Structural)]
pub enum AuthFailure {
    /// No `Authorization` header, or not of the form `Bearer <token>`.
    MissingCredential,
    /// The store could not be asked.
    StoreFailure,
    /// The token is malformed or its signature is wrong.
    TokenInvalid,
    /// The token is correctly signed and has expired.
    TokenExpired,
    /// The token checks out and is not the current token of any live user.
    UnknownSession,
}

/// The error a client sees for a refusal: the internal error for a store
/// failure, the one generic 401 for every other cause.
pub open spec fn failure_error(failure: AuthFailure) -> AppErrorView {
    match failure {
        AuthFailure::StoreFailure => internal(),
        _ => not_authorized(),
    }
}

impl AuthFailure {
    /// The error a client sees for this refusal.
    pub fn to_error(self) -> (e: AppError)
        ensures
            e@ == failure_error(self),
    {
        match self {
            AuthFailure::StoreFailure => AppError::internal(),
            _ => AppError::not_authorized(),
        }
    }
}

/// The token of an `Authorization` header value: what follows `Bearer `, if
/// the value begins so and something follows.
pub open spec fn bearer_of(value: Seq<char>) -> Option<Seq<char>> {
    let scheme = "Bearer "@;
    if occurs_at(scheme, value, 0) && scheme.len() < value.len() {
        Some(value.subrange(scheme.len() as int, value.len() as int))
    } else {
        None
    }
}

/// The token a request presents, given its `Authorization` header if it has one.
pub open spec fn credential_of(authorization: Option<Seq<char>>) -> Option<Seq<char>> {
    match authorization {
        Some(value) => bearer_of(value),
        None => None,
    }
}

/// The view of an optional header value.
pub open spec fn header_view(authorization: Option<&str>) -> Option<Seq<char>> {
    match authorization {
        Some(value) => Some(value@),
        None => None,
    }
}

/// Extracts the bearer token from the `Authorization` header.
pub fn bearer_token(authorization: Option<&str>) -> (token: Option<String>)
    ensures
        text_view(token) == credential_of(header_view(authorization)),
{
    match authorization {
        None => None,
        Some(value) => {
            let scheme = "Bearer ";
            if !starts_with(value, scheme) {
                return None;
            }
            let start = scheme.unicode_len();
            let end = value.unicode_len();
            if end <= start {
                return None;
            }
            Some(value.substring_char(start, end).to_owned())
        },
    }
}

/// The decision once the store has answered and the token has been checked:
/// a store failure first, then a failed token check, then a token nobody
/// holds; otherwise the user the store found.
pub open spec fn decision(
    found: Result<Option<UserView>, StoreFailure>,
    checked: Result<Seq<char>, TokenError>,
) -> Result<UserView, AuthFailure> {
    match found {
        Err(_) => Err(AuthFailure::StoreFailure),
        Ok(user) => match checked {
            Err(TokenError::TokenInvalid) => Err(AuthFailure::TokenInvalid),
            Err(TokenError::TokenExpired) => Err(AuthFailure::TokenExpired),
            Ok(_) => match user {
                None => Err(AuthFailure::UnknownSession),
                Some(u) => Ok(u),
            },
        },
    }
}

/// The view of a store's answer.
pub open spec fn found_view(found: Result<Option<User>, StoreFailure>) -> Result<
    Option<UserView>,
    StoreFailure,
> {
    match found {
        Ok(user) => Ok(user_view(user)),
        Err(failure) => Err(failure),
    }
}

/// The view of a token check's result.
pub open spec fn checked_view(checked: Result<String, TokenError>) -> Result<
    Seq<char>,
    TokenError,
> {
    match checked {
        Ok(subject) => Ok(subject@),
        Err(e) => Err(e),
    }
}

/// Whether an executable decision is the mathematical one.
pub open spec fn decision_is(r: Result<User, AuthFailure>, d: Result<UserView, AuthFailure>) -> bool {
    match r {
        Ok(u) => d == Ok::<UserView, AuthFailure>(u@),
        Err(f) => d == Err::<UserView, AuthFailure>(f),
    }
}

/// Decides a request from the store's answer to the lookup by token and the
/// result of the token check.
pub fn authorize(found: Result<Option<User>, StoreFailure>, checked: Result<String, TokenError>) -> (r:
    Result<User, AuthFailure>)
    ensures
        decision_is(r, decision(found_view(found), checked_view(checked))),
{
    match found {
        Err(_) => Err(AuthFailure::StoreFailure),
        Ok(user) => match checked {
            Err(TokenError::TokenInvalid) => Err(AuthFailure::TokenInvalid),
            Err(TokenError::TokenExpired) => Err(AuthFailure::TokenExpired),
            Ok(_) => match user {
                None => Err(AuthFailure::UnknownSession),
                Some(u) => Ok(u),
            },
        },
    }
}

/// The whole decision for a request against a store at time `now`.
pub open spec fn session_decision(
    rows: Seq<UserView>,
    secret: Seq<char>,
    authorization: Option<Seq<char>>,
    now: int,
) -> Result<UserView, AuthFailure> {
    match credential_of(authorization) {
        None => Err(AuthFailure::MissingCredential),
        Some(token) => decision(
            Ok(session_of(rows, token)),
            verdict(token_claims(secret, token), now),
        ),
    }
}

/// Why a request is refused at time `now`, or the user it is authorized as.
pub fn check_session_at(
    store: &SessionStore,
    secret: &str,
    authorization: Option<&str>,
    now: i64,
) -> (r: Result<User, AuthFailure>)
    ensures
        decision_is(r, session_decision(store@, secret@, header_view(authorization), now as int)),
{
    match bearer_token(authorization) {
        None => Err(AuthFailure::MissingCredential),
        Some(token) => {
            let found = store.find_by_current_token(token.as_str());
            let checked = verify_token_at(secret, token.as_str(), now);
            authorize(Ok(found), checked)
        },
    }
}

/// Guards a request at time `now`: the user it is authorized as, or the error
/// the client is sent.
///
/// The request passes exactly when its header carries a bearer token that is
/// the current token of a live user and that verifies at `now`. Every refusal
/// is the same generic 401, whatever its cause.
pub fn user_session_at(
    store: &SessionStore,
    jwt_secret: &TokenWrapper,
    authorization: Option<&str>,
    now: i64,
) -> (r: Result<User, AppError>)
    ensures
        match r {
            Ok(u) => session_decision(store@, jwt_secret.0@, header_view(authorization), now as int)
                == Ok::<UserView, AuthFailure>(u@),
            Err(e) => session_decision(
                store@,
                jwt_secret.0@,
                header_view(authorization),
                now as int,
            ) is Err && e@ == not_authorized(),
        },
{
    match check_session_at(store, jwt_secret.secret(), authorization, now) {
        Ok(user) => Ok(user),
        Err(failure) => Err(failure.to_error()),
    }
}

/// Guards a request at the current time.
///
/// Whatever the clock says, a request that passes carries the current token of
/// the user it passes as, a request without a bearer token is refused, and so
/// is one whose token nobody holds or the codec rejects. Every refusal is the
/// same generic 401.
pub fn user_session(
    store: &SessionStore,
    jwt_secret: &TokenWrapper,
    authorization: Option<&str>,
) -> (r: Result<User, AppError>)
    ensures
        match r {
            Ok(u) => credential_of(header_view(authorization)) matches Some(token) && session_of(
                store@,
                token,
            ) == Some(u@) && decoded_claims(jwt_secret.0@, token) is Some,
            Err(e) => e@ == not_authorized(),
        },
        match credential_of(header_view(authorization)) {
            None => r is Err,
            Some(token) => session_of(store@, token) is None || decoded_claims(
                jwt_secret.0@,
                token,
            ) is None ==> r is Err,
        },
{
    let now = unix_now();
    user_session_at(store, jwt_secret, authorization, now)
}

/// Fail closed. A request whose token the codec rejects is refused as invalid
/// at every time and whatever the store holds, even where a live user holds
/// that very token; the client gets the generic 401.
pub proof fn lemma_rejected_token_is_refused(
    rows: Seq<UserView>,
    secret: Seq<char>,
    authorization: Option<Seq<char>>,
    token: Seq<char>,
    now: int,
)
    requires
        credential_of(authorization) == Some(token),
        decoded_claims(secret, token) is None,
    ensures
        session_decision(rows, secret, authorization, now) == Err::<UserView, AuthFailure>(
            AuthFailure::TokenInvalid,
        ),
        failure_error(AuthFailure::TokenInvalid) == not_authorized(),
{
}

/// Every refusal that is not a store failure is one and the same error to the
/// client: a missing header cannot be told from an expired token.
pub proof fn lemma_refusals_look_alike(a: AuthFailure, b: AuthFailure)
    requires
        a != AuthFailure::StoreFailure,
        b != AuthFailure::StoreFailure,
    ensures
        failure_error(a) == failure_error(b),
        failure_error(a) == not_authorized(),
{
}

} // verus!
