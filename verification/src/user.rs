//! The user record that sessions are tied to.

use vstd::prelude::*;

verus! {

/// A user as the store holds it. It has no `Debug`, so that a password hash
/// or a token is not written to a log by accident.
pub struct User {
    pub id: i32,
    /// Unique among all users.
    pub username: String,
    /// The bcrypt hash of the password, never the password.
    pub password: String,
    /// The one token that currently authorizes this user, if any.
    pub token: Option<String>,
    /// When the user was soft-deleted, in seconds since the Unix epoch.
    pub deleted_at: Option<i64>,
}

/// The mathematical value of a [`User`].
pub struct UserView {
    pub id: i32,
    pub username: Seq<char>,
    pub password: Seq<char>,
    pub token: Option<Seq<char>>,
    pub deleted_at: Option<i64>,
}

/// The view of an optional text.
pub open spec fn text_view(text: Option<String>) -> Option<Seq<char>> {
    match text {
        Some(t) => Some(t@),
        None => None,
    }
}

impl View for User {
    type V = UserView;

    open spec fn view(&self) -> UserView {
        UserView {
            id: self.id,
            username: self.username@,
            password: self.password@,
            token: text_view(self.token),
            deleted_at: self.deleted_at,
        }
    }
}

impl UserView {
    /// A user that was not soft-deleted.
    pub open spec fn is_live(self) -> bool {
        self.deleted_at is None
    }

    /// Whether `token` authorizes this user: the user is live and `token` is
    /// exactly the user's current token.
    pub open spec fn holds_session(self, token: Seq<char>) -> bool {
        self.is_live() && self.token == Some(token)
    }

    /// This user with the current token replaced.
    pub open spec fn with_token(self, token: Option<Seq<char>>) -> UserView {
        UserView { token, ..self }
    }
}

/// A copy of an optional text.
pub fn clone_text(text: &Option<String>) -> (copy: Option<String>)
    ensures
        text_view(copy) == text_view(*text),
{
    match text {
        Some(t) => Some(t.clone()),
        None => None,
    }
}

impl Clone for User {
    fn clone(&self) -> (copy: User)
        ensures
            copy@ == self@,
    {
        User {
            id: self.id,
            username: self.username.clone(),
            password: self.password.clone(),
            token: clone_text(&self.token),
            deleted_at: self.deleted_at,
        }
    }
}

impl User {
    /// The same user with the current token replaced: a new token on login,
    /// none on logout.
    pub fn with_token(self, token: Option<String>) -> (user: User)
        ensures
            user@ == self@.with_token(text_view(token)),
    {
        User {
            id: self.id,
            username: self.username,
            password: self.password,
            token,
            deleted_at: self.deleted_at,
        }
    }

    /// Whether the user was not soft-deleted.
    pub fn is_live(&self) -> (live: bool)
        ensures
            live == self@.is_live(),
    {
        self.deleted_at.is_none()
    }

    /// Whether `token` is this live user's current token.
    pub fn holds_session(&self, token: &String) -> (holds: bool)
        ensures
            holds == self@.holds_session(token@),
    {
        match &self.token {
            Some(current) => self.deleted_at.is_none() && *current == *token,
            None => false,
        }
    }
}

} // verus!
