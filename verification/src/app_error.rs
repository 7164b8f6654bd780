//! The one error type every component answers with: an HTTP status and a
//! message that is safe to show to the client.

use vstd::prelude::*;

verus! {

/// The HTTP statuses this service answers with.
#[derive(Clone, Copy, Debug, PartialEq, Eq, Structural)]
pub enum StatusCode {
    Success,
    Created,
    BadRequest,
    Unauthorized,
    NotFound,
    InternalServerError,
}

impl StatusCode {
    /// The numeric status code.
    pub open spec fn number(self) -> u16 {
        match self {
            StatusCode::Success => 200,
            StatusCode::Created => 201,
            StatusCode::BadRequest => 400,
            StatusCode::Unauthorized => 401,
            StatusCode::NotFound => 404,
            StatusCode::InternalServerError => 500,
        }
    }

    pub fn as_u16(self) -> (n: u16)
        ensures
            n == self.number(),
    {
        match self {
            StatusCode::Success => 200,
            StatusCode::Created => 201,
            StatusCode::BadRequest => 400,
            StatusCode::Unauthorized => 401,
            StatusCode::NotFound => 404,
            StatusCode::InternalServerError => 500,
        }
    }
}

/// An error as the client sees it.
#[derive(Debug)]
pub struct AppError {
    pub code: StatusCode,
    pub message: String,
}

/// The mathematical value of an [`AppError`].
pub struct AppErrorView {
    pub code: StatusCode,
    pub message: Seq<char>,
}

impl View for AppError {
    type V = AppErrorView;

    open spec fn view(&self) -> AppErrorView {
        AppErrorView { code: self.code, message: self.message@ }
    }
}

/// 401 for a missing, invalid, expired or superseded bearer token. Every such
/// cause gives this one value, so a client cannot tell them apart.
pub open spec fn not_authorized() -> AppErrorView {
    AppErrorView {
        code: StatusCode::Unauthorized,
        message: "not authorized, please login or create an account"@,
    }
}

/// 401 for a login whose username or password is wrong.
pub open spec fn bad_credentials() -> AppErrorView {
    AppErrorView {
        code: StatusCode::Unauthorized,
        message: "incorrect username and/or password"@,
    }
}

/// 404 for a resource that does not exist.
pub open spec fn not_found() -> AppErrorView {
    AppErrorView { code: StatusCode::NotFound, message: "not found"@ }
}

/// 400 for a registration under a username that is in use.
pub open spec fn username_taken() -> AppErrorView {
    AppErrorView { code: StatusCode::BadRequest, message: "username already taken"@ }
}

/// 500 for any fault of storage, hashing or token signing. The message never
/// carries the cause.
pub open spec fn internal() -> AppErrorView {
    AppErrorView { code: StatusCode::InternalServerError, message: "something went wrong"@ }
}

/// 400 for a request whose body is missing or cannot be read.
pub open spec fn malformed_body() -> AppErrorView {
    AppErrorView { code: StatusCode::BadRequest, message: "malformed request body"@ }
}

/// 400 for a request that breaks a validation rule, with that rule's message.
pub open spec fn bad_request(message: Seq<char>) -> AppErrorView {
    AppErrorView { code: StatusCode::BadRequest, message }
}

impl AppError {
    pub fn new(code: StatusCode, message: &str) -> (e: AppError)
        ensures
            e@ == (AppErrorView { code, message: message@ }),
    {
        AppError { code, message: message.to_owned() }
    }

    pub fn not_authorized() -> (e: AppError)
        ensures
            e@ == not_authorized(),
    {
        AppError::new(
            StatusCode::Unauthorized,
            "not authorized, please login or create an account",
        )
    }

    pub fn bad_credentials() -> (e: AppError)
        ensures
            e@ == bad_credentials(),
    {
        AppError::new(StatusCode::Unauthorized, "incorrect username and/or password")
    }

    pub fn not_found() -> (e: AppError)
        ensures
            e@ == not_found(),
    {
        AppError::new(StatusCode::NotFound, "not found")
    }

    pub fn username_taken() -> (e: AppError)
        ensures
            e@ == username_taken(),
    {
        AppError::new(StatusCode::BadRequest, "username already taken")
    }

    pub fn internal() -> (e: AppError)
        ensures
            e@ == internal(),
    {
        AppError::new(StatusCode::InternalServerError, "something went wrong")
    }

    pub fn malformed_body() -> (e: AppError)
        ensures
            e@ == malformed_body(),
    {
        AppError::new(StatusCode::BadRequest, "malformed request body")
    }

    pub fn bad_request(message: &str) -> (e: AppError)
        ensures
            e@ == bad_request(message@),
    {
        AppError::new(StatusCode::BadRequest, message)
    }

    /// The numeric HTTP status of this error.
    pub fn status(&self) -> (n: u16)
        ensures
            n == self@.code.number(),
    {
        self.code.as_u16()
    }
}

} // verus!
