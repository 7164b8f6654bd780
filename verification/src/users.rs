//! Registration, login and logout, and what a client is shown of a user.

use vstd::prelude::*;
use crate::app_error::{
    bad_credentials, bad_request, internal, username_taken, AppError, AppErrorView, StatusCode,
};
use crate::hash::{bcrypt_verdict, hash_password, password_matches, verify_password};
use crate::jwt::{issue_token_at, issued, unix_now};
use crate::session_store::{
    has_match, lemma_lookup_by_live_id, lemma_lookup_finds, lookup, replace_token, user_view,
    SessionStore, UserKeyView,
};
use crate::text::{contains, occurs_at, occurs_in};
use crate::token_wrapper::TokenWrapper;
use crate::user::{clone_text, text_view, User, UserView};
use crate::validation::{email_is_valid, is_email, length_is_within};

verus! {

/// The credentials a client sends to register or to log in. They have no
/// `Debug`, so that a password is not written to a log by accident.
pub struct RequestUser {
    pub username: String,
    pub password: String,
}

/// What a client is shown of a user. The password hash is not part of it.
#[derive(Debug, PartialEq, Eq)]
pub struct ResponseUser {
    pub username: String,
    pub id: i32,
    pub token: Option<String>,
}

/// The mathematical value of a [`ResponseUser`].
pub struct ResponseUserView {
    pub username: Seq<char>,
    pub id: i32,
    pub token: Option<Seq<char>>,
}

impl View for ResponseUser {
    type V = ResponseUserView;

    open spec fn view(&self) -> ResponseUserView {
        ResponseUserView { username: self.username@, id: self.id, token: text_view(self.token) }
    }
}

/// What a client is shown of the user `u`.
pub open spec fn response_of(u: UserView) -> ResponseUserView {
    ResponseUserView { username: u.username, id: u.id, token: u.token }
}

/// The message of the first rule that credentials break, if they break one:
/// the username must be an email address, and the password must have at least
/// eight characters.
pub open spec fn violation(username: Seq<char>, password: Seq<char>) -> Option<Seq<char>> {
    if !is_email(username) {
        Some("must be a valid email"@)
    } else if password.len() < 8 {
        Some("must have at least 8 characters"@)
    } else {
        None
    }
}

impl RequestUser {
    /// Holds the credentials to the rules for a registration. Only the first
    /// broken rule is reported, as a 400 with that rule's message.
    pub fn validate(&self) -> (r: Result<(), AppError>)
        ensures
            match r {
                Ok(_) => violation(self.username@, self.password@) is None,
                Err(e) => violation(self.username@, self.password@) matches Some(message) && e@
                    == bad_request(message),
            },
    {
        if !email_is_valid(self.username.as_str()) {
            return Err(AppError::bad_request("must be a valid email"));
        }
        if !length_is_within(self.password.as_str(), Some(8), None) {
            return Err(AppError::bad_request("must have at least 8 characters"));
        }
        Ok(())
    }
}

impl ResponseUser {
    /// What a client is shown of `user`.
    pub fn of(user: &User) -> (response: ResponseUser)
        ensures
            response@ == response_of(user@),
    {
        ResponseUser {
            username: user.username.clone(),
            id: user.id,
            token: clone_text(&user.token),
        }
    }
}

/// A user that is ready to be stored: the name, the hash of the password and
/// the first token.
pub struct NewUser {
    pub username: String,
    pub password: String,
    pub token: String,
}

/// Prepares a registration at time `now`: the password is hashed and the
/// first token is issued, for whatever username and password are given. The
/// rules of [`RequestUser::validate`] are for whoever reads the request to
/// apply; they are not asked again here.
///
/// A fault of hashing or signing gives the generic internal error.
pub fn prepare_user_at(jwt_secret: &TokenWrapper, user: RequestUser, now: i64) -> (r: Result<
    NewUser,
    AppError,
>)
    ensures
        issued(jwt_secret.0@, user.username@, now as int) is None ==> r is Err,
        match r {
            Ok(new_user) => {
                &&& new_user.username@ == user.username@
                &&& password_matches(user.password@, new_user.password@)
                &&& occurs_at("$2b$14$"@, new_user.password@, 0)
                &&& new_user.token@.len() > 0
                &&& issued(jwt_secret.0@, user.username@, now as int) == Some(new_user.token@)
            },
            Err(e) => e@ == internal(),
        },
{
    let password = match hash_password(user.password.as_str()) {
        Ok(h) => h,
        Err(e) => {
            return Err(e);
        },
    };
    match issue_token_at(jwt_secret.secret(), user.username.as_str(), now) {
        Ok(token) => Ok(NewUser { username: user.username, password, token }),
        Err(e) => Err(e),
    }
}

/// Prepares a registration at the current time.
///
/// Whatever the clock says and whatever salt is drawn: what is returned
/// carries the given username, a hash that the given password verifies
/// against and a token issued to that username.
pub fn prepare_user(jwt_secret: &TokenWrapper, user: RequestUser) -> (r: Result<NewUser, AppError>)
    ensures
        match r {
            Ok(new_user) => {
                &&& new_user.username@ == user.username@
                &&& password_matches(user.password@, new_user.password@)
                &&& occurs_at("$2b$14$"@, new_user.password@, 0)
                &&& new_user.token@.len() > 0
                &&& exists|now: int|
                    issued(jwt_secret.0@, user.username@, now) == Some(new_user.token@)
            },
            Err(e) => e@ == internal(),
        },
{
    let now = unix_now();
    prepare_user_at(jwt_secret, user, now)
}

/// The answer to a registration that stored `user`: 201, with what the client
/// is shown of the user.
pub fn registered(user: &User) -> (answer: (StatusCode, ResponseUser))
    ensures
        answer.0 == StatusCode::Created,
        answer.1@ == response_of(user@),
{
    (StatusCode::Created, ResponseUser::of(user))
}

/// Adds a user whose password has been hashed and whose first token has been
/// issued, and answers 201 with what the client is shown.
///
/// A username in use is refused as taken; the store then stays as it was and
/// the token is dropped.
pub fn register(store: &mut SessionStore, username: String, password_hash: String, token: String) -> (r:
    Result<(StatusCode, ResponseUser), AppError>)
    ensures
        match r {
            Ok((code, response)) => response.id == old(store).next_id() && final(store).next_id()
                == old(store).next_id() + 1,
            Err(_) => final(store).next_id() == old(store).next_id(),
        },
        match r {
            Ok((code, response)) => {
                &&& code == StatusCode::Created
                &&& !has_match(old(store)@, UserKeyView::Username(username@))
                &&& !old(store).is_full()
                &&& !has_match(old(store)@, UserKeyView::Id(response.id))
                &&& response@ == (ResponseUserView {
                    username: username@,
                    id: response.id,
                    token: Some(token@),
                })
                &&& final(store)@ == old(store)@.push(
                    UserView {
                        id: response.id,
                        username: username@,
                        password: password_hash@,
                        token: Some(token@),
                        deleted_at: None,
                    },
                )
            },
            Err(e) => {
                &&& final(store)@ == old(store)@
                &&& if has_match(old(store)@, UserKeyView::Username(username@)) {
                    e@ == username_taken()
                } else {
                    old(store).is_full() && e@ == internal()
                }
            },
        },
{
    match store.insert(username, password_hash, Some(token)) {
        Ok(user) => Ok(registered(&user)),
        Err(e) => Err(e),
    }
}

/// Registers a user at time `now`, under whatever username is given: the
/// password is hashed, a token is issued and the user is stored with both. The
/// answer is 201 with the stored user and its token, which is never empty.
///
/// Nothing is stored unless every step succeeds. A username in use is always
/// refused, with "username already taken" once the password has been hashed;
/// a fault of hashing, signing or the store gives the generic internal error.
/// The rules of [`RequestUser::validate`] are for whoever reads the request to
/// apply; they are not asked again here.
pub fn create_user_at(
    store: &mut SessionStore,
    jwt_secret: &TokenWrapper,
    user: RequestUser,
    now: i64,
) -> (r: Result<(StatusCode, ResponseUser), AppError>)
    ensures
        match r {
            Ok((code, response)) => response.id == old(store).next_id() && final(store).next_id()
                == old(store).next_id() + 1,
            Err(_) => final(store).next_id() == old(store).next_id(),
        },
        match r {
            Ok((code, response)) => {
                let row = final(store)@.last();
                &&& code == StatusCode::Created
                &&& !has_match(old(store)@, UserKeyView::Username(user.username@))
                &&& !has_match(old(store)@, UserKeyView::Id(response.id))
                &&& !old(store).is_full()
                &&& final(store)@ == old(store)@.push(row)
                &&& row.id == response.id
                &&& row.username == user.username@
                &&& password_matches(user.password@, row.password)
                &&& occurs_at("$2b$14$"@, row.password, 0)
                &&& row.token == issued(jwt_secret.0@, user.username@, now as int)
                &&& row.token matches Some(token) && token.len() > 0
                &&& row.is_live()
                &&& response@ == response_of(row)
            },
            Err(e) => {
                &&& final(store)@ == old(store)@
                &&& e@ == internal() || (e@ == username_taken() && has_match(
                    old(store)@,
                    UserKeyView::Username(user.username@),
                ))
            },
        },
        has_match(old(store)@, UserKeyView::Username(user.username@)) ==> r is Err,
        old(store).is_full() ==> r is Err,
        issued(jwt_secret.0@, user.username@, now as int) is None ==> r is Err,
{
    match prepare_user_at(jwt_secret, user, now) {
        Ok(new_user) => register(store, new_user.username, new_user.password, new_user.token),
        Err(e) => Err(e),
    }
}

/// Registers a user at the current time.
///
/// Whatever the clock says and whatever salt is drawn: on success exactly one
/// user is added, under the given username, with a password hash that the
/// given password verifies against and with the token in the response as its
/// current token; on failure nothing is stored.
pub fn create_user(store: &mut SessionStore, jwt_secret: &TokenWrapper, user: RequestUser) -> (r:
    Result<(StatusCode, ResponseUser), AppError>)
    ensures
        match r {
            Ok((code, response)) => response.id == old(store).next_id() && final(store).next_id()
                == old(store).next_id() + 1,
            Err(_) => final(store).next_id() == old(store).next_id(),
        },
        match r {
            Ok((code, response)) => {
                let row = final(store)@.last();
                &&& code == StatusCode::Created
                &&& !has_match(old(store)@, UserKeyView::Username(user.username@))
                &&& !has_match(old(store)@, UserKeyView::Id(response.id))
                &&& !old(store).is_full()
                &&& final(store)@ == old(store)@.push(row)
                &&& row.username == user.username@
                &&& password_matches(user.password@, row.password)
                &&& occurs_at("$2b$14$"@, row.password, 0)
                &&& row.token matches Some(token) && token.len() > 0
                &&& exists|now: int| issued(jwt_secret.0@, user.username@, now) == row.token
                &&& row.is_live()
                &&& response@ == response_of(row)
            },
            Err(e) => {
                &&& final(store)@ == old(store)@
                &&& e@ == internal() || (e@ == username_taken() && has_match(
                    old(store)@,
                    UserKeyView::Username(user.username@),
                ))
            },
        },
        has_match(old(store)@, UserKeyView::Username(user.username@)) ==> r is Err,
        old(store).is_full() ==> r is Err,
{
    let now = unix_now();
    create_user_at(store, jwt_secret, user, now)
}

/// The error a client is shown when storing a new user failed with `message`:
/// a violated unique constraint on the username means the name is taken,
/// anything else is the generic internal error.
pub fn create_user_error(message: &str) -> (e: AppError)
    ensures
        e@ == if occurs_in(
            "duplicate key value violates unique constraint \"users_username_key\""@,
            message@,
        ) {
            username_taken()
        } else {
            internal()
        },
{
    if contains(message, "duplicate key value violates unique constraint \"users_username_key\"") {
        AppError::username_taken()
    } else {
        AppError::internal()
    }
}

/// Whether a login may go on, given the live user that has the username, if
/// there is one: no such user and a password that does not fit give the same
/// 401; a hash that cannot be read gives the generic internal error.
pub open spec fn login_check(found: Option<UserView>, password: Seq<char>) -> Result<
    UserView,
    AppErrorView,
> {
    match found {
        None => Err(bad_credentials()),
        Some(u) => match bcrypt_verdict(password, u.password) {
            None => Err(internal()),
            Some(false) => Err(bad_credentials()),
            Some(true) => Ok(u),
        },
    }
}

/// Checks a login: `found` is the live user that has the username, if there
/// is one, and `password` is what the client sent.
pub fn check_login(found: Option<User>, password: &str) -> (r: Result<User, AppError>)
    ensures
        match r {
            Ok(u) => login_check(user_view(found), password@) == Ok::<UserView, AppErrorView>(u@),
            Err(e) => login_check(user_view(found), password@) == Err::<UserView, AppErrorView>(
                e@,
            ),
        },
{
    let user = match found {
        Some(u) => u,
        None => {
            return Err(AppError::bad_credentials());
        },
    };
    match verify_password(password, user.password.as_str()) {
        Err(e) => Err(e),
        Ok(false) => Err(AppError::bad_credentials()),
        Ok(true) => Ok(user),
    }
}

/// What a login at time `now` comes to: the table afterwards and the response,
/// or the error. Beyond the check of the password, a token that cannot be
/// issued gives the generic internal error.
pub open spec fn login_outcome(
    rows: Seq<UserView>,
    secret: Seq<char>,
    username: Seq<char>,
    password: Seq<char>,
    now: int,
) -> Result<(Seq<UserView>, ResponseUserView), AppErrorView> {
    match login_check(lookup(rows, UserKeyView::LiveUsername(username)), password) {
        Err(e) => Err(e),
        Ok(u) => match issued(secret, u.username, now) {
            None => Err(internal()),
            Some(token) => Ok(
                (replace_token(rows, u.id, Some(token)), response_of(u.with_token(Some(token)))),
            ),
        },
    }
}

/// Logs a user in at time `now`: on the right password a new token is issued
/// and replaces the user's current one, which stops authorizing at once.
///
/// On any error the store stays as it was.
pub fn login_at(
    store: &mut SessionStore,
    jwt_secret: &TokenWrapper,
    request_user: RequestUser,
    now: i64,
) -> (r: Result<ResponseUser, AppError>)
    ensures
        final(store).next_id() == old(store).next_id(),
        match r {
            Ok(response) => login_outcome(
                old(store)@,
                jwt_secret.0@,
                request_user.username@,
                request_user.password@,
                now as int,
            ) == Ok::<(Seq<UserView>, ResponseUserView), AppErrorView>(
                (final(store)@, response@),
            ),
            Err(e) => final(store)@ == old(store)@ && login_outcome(
                old(store)@,
                jwt_secret.0@,
                request_user.username@,
                request_user.password@,
                now as int,
            ) == Err::<(Seq<UserView>, ResponseUserView), AppErrorView>(e@),
        },
{
    let found = store.find_by_username(request_user.username.as_str());
    let user = match check_login(found, request_user.password.as_str()) {
        Ok(u) => u,
        Err(e) => {
            return Err(e);
        },
    };
    let new_token = match issue_token_at(jwt_secret.secret(), user.username.as_str(), now) {
        Ok(t) => t,
        Err(e) => {
            return Err(e);
        },
    };
    proof {
        lemma_lookup_finds(store@, UserKeyView::LiveUsername(request_user.username@));
        lemma_lookup_by_live_id(store@, user@);
    }
    match store.replace_token(user.id, Some(new_token)) {
        Ok(updated) => Ok(ResponseUser::of(&updated)),
        Err(e) => Err(e),
    }
}

/// Logs a user in at the current time.
///
/// Whatever the clock says: a username that no live user has and a password
/// that does not fit are refused with the same 401 and change nothing; a
/// password that fits is never refused with a 401, only with the generic
/// internal error where no token could be issued; and a login that succeeds
/// leaves the user with the token in the response as its current token.
pub fn login(store: &mut SessionStore, jwt_secret: &TokenWrapper, request_user: RequestUser) -> (r:
    Result<ResponseUser, AppError>)
    ensures
        final(store).next_id() == old(store).next_id(),
        match r {
            Ok(response) => {
                &&& lookup(old(store)@, UserKeyView::LiveUsername(request_user.username@)) matches Some(
                    u,
                ) && password_matches(request_user.password@, u.password) && response.id == u.id
                    && response.username@ == u.username && final(store)@ == replace_token(
                    old(store)@,
                    u.id,
                    text_view(response.token),
                )
                &&& response.token matches Some(token) && token@.len() > 0
                &&& exists|now: int|
                    issued(jwt_secret.0@, response.username@, now) == text_view(response.token)
            },
            Err(e) => {
                &&& final(store)@ == old(store)@
                &&& e@ == bad_credentials() || e@ == internal()
            },
        },
        match lookup(old(store)@, UserKeyView::LiveUsername(request_user.username@)) {
            None => r matches Err(e) && e@ == bad_credentials(),
            Some(u) => match bcrypt_verdict(request_user.password@, u.password) {
                None => r matches Err(e) && e@ == internal(),
                Some(false) => r matches Err(e) && e@ == bad_credentials(),
                Some(true) => r is Ok || (r matches Err(e) && e@ == internal()),
            },
        },
{
    let now = unix_now();
    login_at(store, jwt_secret, request_user, now)
}

/// Logs `user` out: its current token is cleared and authorizes nobody any
/// more. Where the store has no live user with that id, nothing changes and
/// the generic internal error is returned.
pub fn logout(store: &mut SessionStore, user: &User) -> (r: Result<StatusCode, AppError>)
    ensures
        final(store).next_id() == old(store).next_id(),
        match r {
            Ok(code) => {
                &&& code == StatusCode::Success
                &&& has_match(old(store)@, UserKeyView::LiveId(user.id))
                &&& final(store)@ == replace_token(old(store)@, user.id, None)
            },
            Err(e) => {
                &&& !has_match(old(store)@, UserKeyView::LiveId(user.id))
                &&& final(store)@ == old(store)@
                &&& e@ == internal()
            },
        },
{
    match store.replace_token(user.id, None) {
        Ok(_) => {
            proof {
                lemma_lookup_finds(old(store)@, UserKeyView::LiveId(user.id));
            }
            Ok(StatusCode::Success)
        },
        Err(e) => Err(e),
    }
}

/// What a client is shown of the user `user_id`, soft-deleted or not; 404
/// where there is none.
pub fn get_one_user(store: &SessionStore, user_id: i32) -> (r: Result<ResponseUser, StatusCode>)
    ensures
        match r {
            Ok(response) => lookup(store@, UserKeyView::Id(user_id)) matches Some(u) && response@
                == response_of(u),
            Err(code) => lookup(store@, UserKeyView::Id(user_id)) is None && code
                == StatusCode::NotFound,
        },
{
    match store.find_by_id(user_id) {
        Some(user) => Ok(ResponseUser::of(&user)),
        None => Err(StatusCode::NotFound),
    }
}

/// What a client is shown of every user, in the store's order.
pub fn get_all_users(store: &SessionStore) -> (responses: Vec<ResponseUser>)
    ensures
        responses@.len() == store@.len(),
        forall|i: int|
            0 <= i < responses@.len() ==> (#[trigger] responses@[i])@ == response_of(store@[i]),
{
    let users = store.all();
    let mut responses: Vec<ResponseUser> = Vec::new();
    let mut i: usize = 0;
    while i < users.len()
        invariant
            i <= users@.len(),
            responses@.len() == i,
            forall|j: int| 0 <= j < i ==> (#[trigger] responses@[j])@ == response_of(users@[j]@),
        decreases users@.len() - i,
    {
        responses.push(ResponseUser::of(&users[i]));
        i += 1;
    }
    responses
}

} // verus!
