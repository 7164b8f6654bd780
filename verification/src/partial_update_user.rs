//! Changing some fields of a user and leaving the others as they are.

use vstd::prelude::*;
use crate::app_error::{bad_request, AppError, StatusCode};
use crate::hash::{hash_password, password_matches};
use crate::text::occurs_at;
use crate::session_store::{
    lemma_lookup_finds, lemma_replaced_row_is_found, lookup, replace_row,
    username_clashes, SessionStore, UserKeyView,
};
use crate::user::{text_view, User, UserView};
use crate::validation::{email_is_valid, is_email, length_is_within};

verus! {

/// The fields to change. A field that is `None` stays as it is; `deleted_at`
/// can be set (`Some(Some(time))`, a soft delete) or cleared (`Some(None)`).
pub struct RequestUser {
    pub username: Option<String>,
    pub password: Option<String>,
    pub deleted_at: Option<Option<i64>>,
}

/// The message of the first rule that the fields break, if they break one: a
/// username that is given must be an email address, and a password that is
/// given must have at least eight characters.
pub open spec fn violation(username: Option<Seq<char>>, password: Option<Seq<char>>) -> Option<
    Seq<char>,
> {
    if username matches Some(name) && !is_email(name) {
        Some("must be a valid email"@)
    } else if password matches Some(word) && word.len() < 8 {
        Some("must have at least 8 characters"@)
    } else {
        None
    }
}

impl RequestUser {
    /// Holds the fields that are given to their rules. Only the first broken
    /// rule is reported, as a 400 with that rule's message.
    pub fn validate(&self) -> (r: Result<(), AppError>)
        ensures
            match r {
                Ok(_) => violation(text_view(self.username), text_view(self.password)) is None,
                Err(e) => violation(text_view(self.username), text_view(self.password)) matches Some(
                    message,
                ) && e@ == bad_request(message),
            },
    {
        match &self.username {
            Some(name) => {
                if !email_is_valid(name.as_str()) {
                    return Err(AppError::bad_request("must be a valid email"));
                }
            },
            None => {},
        }
        match &self.password {
            Some(word) => {
                if !length_is_within(word.as_str(), Some(8), None) {
                    return Err(AppError::bad_request("must have at least 8 characters"));
                }
            },
            None => {},
        }
        Ok(())
    }
}

/// The user `current` with the given fields changed. The id and the current
/// token are never touched.
pub open spec fn updated(
    current: UserView,
    username: Option<Seq<char>>,
    password_hash: Option<Seq<char>>,
    deleted_at: Option<Option<i64>>,
) -> UserView {
    UserView {
        id: current.id,
        username: match username {
            Some(name) => name,
            None => current.username,
        },
        password: match password_hash {
            Some(hash) => hash,
            None => current.password,
        },
        token: current.token,
        deleted_at: match deleted_at {
            Some(time) => time,
            None => current.deleted_at,
        },
    }
}

/// Changes the given fields of `current`.
pub fn apply_update(
    current: User,
    username: Option<String>,
    password_hash: Option<String>,
    deleted_at: Option<Option<i64>>,
) -> (user: User)
    ensures
        user@ == updated(current@, text_view(username), text_view(password_hash), deleted_at),
{
    User {
        id: current.id,
        username: match username {
            Some(name) => name,
            None => current.username,
        },
        password: match password_hash {
            Some(hash) => hash,
            None => current.password,
        },
        token: current.token,
        deleted_at: match deleted_at {
            Some(time) => time,
            None => current.deleted_at,
        },
    }
}

/// Changes the given fields of the user `user_id`, the password given as its
/// hash.
///
/// 404 where there is no such user; 500 where another user has the new
/// username. On any error the store stays as it was.
pub fn update_user(
    store: &mut SessionStore,
    user_id: i32,
    username: Option<String>,
    password_hash: Option<String>,
    deleted_at: Option<Option<i64>>,
) -> (r: Result<(), StatusCode>)
    ensures
        final(store).next_id() == old(store).next_id(),
        match lookup(old(store)@, UserKeyView::Id(user_id)) {
            None => r == Err::<(), StatusCode>(StatusCode::NotFound) && final(store)@ == old(
                store,
            )@,
            Some(current) => {
                let user = updated(
                    current,
                    text_view(username),
                    text_view(password_hash),
                    deleted_at,
                );
                if username_clashes(old(store)@, user) {
                    r == Err::<(), StatusCode>(StatusCode::InternalServerError) && final(store)@
                        == old(store)@
                } else {
                    r is Ok && final(store)@ == replace_row(old(store)@, user)
                }
            },
        },
{
    let current = match store.find_by_id(user_id) {
        Some(u) => u,
        None => {
            return Err(StatusCode::NotFound);
        },
    };
    proof {
        lemma_lookup_finds(store@, UserKeyView::Id(user_id));
    }
    let user = apply_update(current, username, password_hash, deleted_at);
    match store.update(user) {
        Ok(_) => Ok(()),
        Err(_) => Err(StatusCode::InternalServerError),
    }
}

/// Changes the given fields of the user `user_id`; a new password is hashed
/// before it is stored.
///
/// The steps run in this order, and the first that fails decides: 400 where a
/// field breaks its rule; 404 where there is no such user; 500 where the new
/// password cannot be hashed or another user has the new username. Where no
/// password is given nothing can fail in hashing, so the update succeeds
/// exactly when the user exists and the username is free. On any error the
/// store stays as it was.
pub fn partial_update_user(store: &mut SessionStore, user_id: i32, user: RequestUser) -> (r: Result<
    (),
    StatusCode,
>)
    ensures
        final(store).next_id() == old(store).next_id(),
        r is Err ==> final(store)@ == old(store)@,
        match violation(text_view(user.username), text_view(user.password)) {
            Some(_) => r == Err::<(), StatusCode>(StatusCode::BadRequest),
            None => match lookup(old(store)@, UserKeyView::Id(user_id)) {
                None => r == Err::<(), StatusCode>(StatusCode::NotFound),
                Some(current) => match r {
                    Ok(_) => lookup(final(store)@, UserKeyView::Id(user_id)) matches Some(row)
                        && final(store)@ == replace_row(old(store)@, row) && row == updated(
                        current,
                        text_view(user.username),
                        match user.password {
                            Some(_) => Some(row.password),
                            None => None,
                        },
                        user.deleted_at,
                    ) && (user.password matches Some(word) ==> password_matches(
                        word@,
                        row.password,
                    ) && occurs_at("$2b$14$"@, row.password, 0)) && !username_clashes(
                        old(store)@,
                        row,
                    ),
                    Err(code) => code == StatusCode::InternalServerError && (user.password is None
                        ==> username_clashes(
                        old(store)@,
                        updated(current, text_view(user.username), None, user.deleted_at),
                    )),
                },
            },
        },
{
    match user.validate() {
        Err(_) => {
            return Err(StatusCode::BadRequest);
        },
        Ok(_) => {},
    }
    if store.find_by_id(user_id).is_none() {
        return Err(StatusCode::NotFound);
    }
    let password_hash = match &user.password {
        Some(word) => match hash_password(word.as_str()) {
            Ok(hash) => Some(hash),
            Err(_) => {
                return Err(StatusCode::InternalServerError);
            },
        },
        None => None,
    };
    proof {
        lemma_replaced_row_is_found(
            store@,
            updated(
                lookup(store@, UserKeyView::Id(user_id)).unwrap(),
                text_view(user.username),
                text_view(password_hash),
                user.deleted_at,
            ),
        );
    }
    update_user(store, user_id, user.username, password_hash, user.deleted_at)
}

} // verus!
