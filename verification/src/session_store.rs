//! The table of users and the sessions it grants: who a token belongs to, and
//! how a login or a logout replaces it.
//!
//! A user has at most one current token. A token authorizes a request only
//! while it is the current token of a user that was not soft-deleted, so
//! replacing it revokes the one before, and clearing it ends the session.

use vstd::prelude::*;
use crate::app_error::{internal, username_taken, AppError};
use crate::user::{text_view, User, UserView};

verus! {

/// What a lookup goes by.
pub enum UserKey {
    /// The live user whose current token is this one.
    Session(String),
    /// The user with this id, soft-deleted or not.
    Id(i32),
    /// The live user with this id.
    LiveId(i32),
    /// The user with this name, soft-deleted or not.
    Username(String),
    /// The live user with this name.
    LiveUsername(String),
}

/// The mathematical value of a [`UserKey`].
pub enum UserKeyView {
    Session(Seq<char>),
    Id(i32),
    LiveId(i32),
    Username(Seq<char>),
    LiveUsername(Seq<char>),
}

impl View for UserKey {
    type V = UserKeyView;

    open spec fn view(&self) -> UserKeyView {
        match self {
            UserKey::Session(t) => UserKeyView::Session(t@),
            UserKey::Id(id) => UserKeyView::Id(*id),
            UserKey::LiveId(id) => UserKeyView::LiveId(*id),
            UserKey::Username(n) => UserKeyView::Username(n@),
            UserKey::LiveUsername(n) => UserKeyView::LiveUsername(n@),
        }
    }
}

impl UserKeyView {
    /// Whether this key selects the user `u`.
    pub open spec fn selects(self, u: UserView) -> bool {
        match self {
            UserKeyView::Session(t) => u.holds_session(t),
            UserKeyView::Id(id) => u.id == id,
            UserKeyView::LiveId(id) => u.id == id && u.is_live(),
            UserKeyView::Username(n) => u.username == n,
            UserKeyView::LiveUsername(n) => u.username == n && u.is_live(),
        }
    }
}

impl UserKey {
    /// Whether this key selects `user`.
    pub fn selects(&self, user: &User) -> (selected: bool)
        ensures
            selected == self@.selects(user@),
    {
        match self {
            UserKey::Session(t) => user.holds_session(t),
            UserKey::Id(id) => user.id == *id,
            UserKey::LiveId(id) => user.id == *id && user.is_live(),
            UserKey::Username(n) => user.username == *n,
            UserKey::LiveUsername(n) => user.username == *n && user.is_live(),
        }
    }
}

/// Row `i` is selected by `key` and no row before it is.
pub open spec fn is_first_match(rows: Seq<UserView>, key: UserKeyView, i: int) -> bool {
    &&& 0 <= i < rows.len()
    &&& key.selects(rows[i])
    &&& forall|j: int| 0 <= j < i ==> !key.selects(#[trigger] rows[j])
}

/// Some row is selected by `key`.
pub open spec fn has_match(rows: Seq<UserView>, key: UserKeyView) -> bool {
    exists|i: int| 0 <= i < rows.len() && key.selects(#[trigger] rows[i])
}

/// The first row that `key` selects, if any.
pub open spec fn lookup(rows: Seq<UserView>, key: UserKeyView) -> Option<UserView> {
    if exists|i: int| is_first_match(rows, key, i) {
        Some(rows[choose|i: int| is_first_match(rows, key, i)])
    } else {
        None
    }
}

/// The user that `token` authorizes, if any.
pub open spec fn session_of(rows: Seq<UserView>, token: Seq<char>) -> Option<UserView> {
    lookup(rows, UserKeyView::Session(token))
}

/// The rows after the live user `id` had its current token replaced.
pub open spec fn replace_token(rows: Seq<UserView>, id: i32, token: Option<Seq<char>>) -> Seq<
    UserView,
> {
    Seq::new(
        rows.len(),
        |i: int|
            if rows[i].id == id && rows[i].is_live() {
                rows[i].with_token(token)
            } else {
                rows[i]
            },
    )
}

/// The rows after the row with the id of `user` was replaced by `user`.
pub open spec fn replace_row(rows: Seq<UserView>, user: UserView) -> Seq<UserView> {
    Seq::new(
        rows.len(),
        |i: int|
            if rows[i].id == user.id {
                user
            } else {
                rows[i]
            },
    )
}

/// Some user other than `user` has the username of `user`.
pub open spec fn username_clashes(rows: Seq<UserView>, user: UserView) -> bool {
    exists|i: int|
        0 <= i < rows.len() && (#[trigger] rows[i]).id != user.id && rows[i].username
            == user.username
}

/// No two rows share an id.
pub open spec fn distinct_ids(rows: Seq<UserView>) -> bool {
    forall|i: int, j: int|
        0 <= i < j < rows.len() ==> (#[trigger] rows[i]).id != (#[trigger] rows[j]).id
}

/// No two rows share a username.
pub open spec fn distinct_usernames(rows: Seq<UserView>) -> bool {
    forall|i: int, j: int|
        0 <= i < j < rows.len() ==> (#[trigger] rows[i]).username != (#[trigger] rows[j]).username
}

/// The views of a sequence of users.
pub open spec fn rows_of(users: Seq<User>) -> Seq<UserView> {
    Seq::new(users.len(), |i: int| users[i]@)
}

/// The view of an optional user.
pub open spec fn user_view(user: Option<User>) -> Option<UserView> {
    match user {
        Some(u) => Some(u@),
        None => None,
    }
}

/// The first match is the one that a lookup returns.
pub proof fn lemma_lookup_first(rows: Seq<UserView>, key: UserKeyView, i: int)
    requires
        is_first_match(rows, key, i),
    ensures
        lookup(rows, key) == Some(rows[i]),
{
    let k = choose|k: int| is_first_match(rows, key, k);
    assert(!(k < i) && !(i < k));
}

/// Where a row is selected, some row is the first that is.
pub proof fn lemma_first_match_exists(rows: Seq<UserView>, key: UserKeyView, i: int)
    requires
        0 <= i < rows.len(),
        key.selects(rows[i]),
    ensures
        exists|k: int| 0 <= k <= i && is_first_match(rows, key, k),
    decreases i,
{
    if exists|j: int| 0 <= j < i && key.selects(#[trigger] rows[j]) {
        let j = choose|j: int| 0 <= j < i && key.selects(#[trigger] rows[j]);
        lemma_first_match_exists(rows, key, j);
    } else {
        assert(is_first_match(rows, key, i));
    }
}

/// A lookup finds a user exactly when some row is selected, and the user it
/// finds is a selected row.
pub proof fn lemma_lookup_finds(rows: Seq<UserView>, key: UserKeyView)
    ensures
        lookup(rows, key) is Some <==> has_match(rows, key),
        lookup(rows, key) matches Some(u) ==> key.selects(u) && rows.contains(u),
{
    if has_match(rows, key) {
        let i = choose|i: int| 0 <= i < rows.len() && key.selects(#[trigger] rows[i]);
        lemma_first_match_exists(rows, key, i);
    }
}

/// Where ids are unique, a live user that is in the table is the one that a
/// lookup by its id finds.
pub proof fn lemma_lookup_by_live_id(rows: Seq<UserView>, u: UserView)
    requires
        distinct_ids(rows),
        rows.contains(u),
        u.is_live(),
    ensures
        lookup(rows, UserKeyView::LiveId(u.id)) == Some(u),
        has_match(rows, UserKeyView::LiveId(u.id)),
{
    let key = UserKeyView::LiveId(u.id);
    let i = choose|i: int| 0 <= i < rows.len() && rows[i] == u;
    lemma_lookup_first(rows, key, i);
}

/// After a row was replaced by `user`, a lookup by the id of `user` finds
/// `user`.
pub proof fn lemma_replaced_row_is_found(rows: Seq<UserView>, user: UserView)
    requires
        has_match(rows, UserKeyView::Id(user.id)),
    ensures
        lookup(replace_row(rows, user), UserKeyView::Id(user.id)) == Some(user),
{
    let key = UserKeyView::Id(user.id);
    let i = choose|i: int| 0 <= i < rows.len() && key.selects(#[trigger] rows[i]);
    lemma_first_match_exists(rows, key, i);
    let k = choose|k: int| 0 <= k <= i && is_first_match(rows, key, k);
    lemma_lookup_first(replace_row(rows, user), key, k);
}

/// No user other than `id` holds `token` as a session.
pub open spec fn nobody_else_holds(rows: Seq<UserView>, id: i32, token: Seq<char>) -> bool {
    forall|i: int|
        0 <= i < rows.len() && (#[trigger] rows[i]).id != id ==> !rows[i].holds_session(token)
}

/// Single active session. When the live user `id` is given the token `t1` and
/// then the token `t2`, `t1` authorizes nobody any more and `t2` authorizes
/// that user, provided the two tokens differ and no other user holds either.
pub proof fn lemma_replaced_token_is_revoked(
    rows: Seq<UserView>,
    id: i32,
    t1: Seq<char>,
    t2: Seq<char>,
)
    requires
        has_match(rows, UserKeyView::LiveId(id)),
        t1 != t2,
        nobody_else_holds(rows, id, t1),
        nobody_else_holds(rows, id, t2),
    ensures
        ({
            let user = lookup(rows, UserKeyView::LiveId(id)).unwrap();
            let first = replace_token(rows, id, Some(t1));
            let second = replace_token(first, id, Some(t2));
            &&& session_of(first, t1) == Some(user.with_token(Some(t1)))
            &&& session_of(second, t1) is None
            &&& session_of(second, t2) == Some(user.with_token(Some(t2)))
        }),
{
    let live = UserKeyView::LiveId(id);
    let first = replace_token(rows, id, Some(t1));
    let second = replace_token(first, id, Some(t2));
    let i = choose|i: int| 0 <= i < rows.len() && live.selects(#[trigger] rows[i]);
    lemma_first_match_exists(rows, live, i);
    let k = choose|k: int| 0 <= k <= i && is_first_match(rows, live, k);
    lemma_lookup_first(rows, live, k);
    lemma_lookup_first(first, UserKeyView::Session(t1), k);
    lemma_lookup_first(second, UserKeyView::Session(t2), k);
    lemma_lookup_finds(second, UserKeyView::Session(t1));
}

/// Logout revokes. Once the token of user `id` is cleared, a token that no
/// other user holds authorizes nobody, whatever it was worth before.
pub proof fn lemma_cleared_token_is_revoked(rows: Seq<UserView>, id: i32, token: Seq<char>)
    requires
        nobody_else_holds(rows, id, token),
    ensures
        session_of(replace_token(rows, id, None), token) is None,
{
    lemma_lookup_finds(replace_token(rows, id, None), UserKeyView::Session(token));
}

/// Replacing the token of user `id` leaves every other user's session as it
/// was: a token that user `id` neither held nor is given authorizes the same
/// user before and after.
pub proof fn lemma_other_sessions_stay(
    rows: Seq<UserView>,
    id: i32,
    new_token: Option<Seq<char>>,
    token: Seq<char>,
)
    requires
        new_token != Some(token),
        forall|i: int|
            0 <= i < rows.len() && (#[trigger] rows[i]).id == id ==> !rows[i].holds_session(token),
    ensures
        session_of(replace_token(rows, id, new_token), token) == session_of(rows, token),
{
    let after = replace_token(rows, id, new_token);
    let key = UserKeyView::Session(token);
    lemma_lookup_finds(rows, key);
    lemma_lookup_finds(after, key);
    if has_match(rows, key) {
        let i = choose|i: int| 0 <= i < rows.len() && key.selects(#[trigger] rows[i]);
        lemma_first_match_exists(rows, key, i);
        let k = choose|k: int| 0 <= k <= i && is_first_match(rows, key, k);
        lemma_lookup_first(rows, key, k);
        lemma_lookup_first(after, key, k);
    }
}

fn position_in(users: &Vec<User>, key: &UserKey) -> (found: Option<usize>)
    ensures
        match found {
            Some(i) => is_first_match(rows_of(users@), key@, i as int),
            None => !has_match(rows_of(users@), key@),
        },
{
    let mut i: usize = 0;
    while i < users.len()
        invariant
            i <= users@.len(),
            forall|j: int| 0 <= j < i ==> !key@.selects(#[trigger] rows_of(users@)[j]),
        decreases users@.len() - i,
    {
        if key.selects(&users[i]) {
            return Some(i);
        }
        i += 1;
    }
    None
}

/// The first of `users` that `key` selects, if any: the lookup that the store
/// makes, on rows that were read elsewhere.
pub fn select_user(users: &Vec<User>, key: &UserKey) -> (found: Option<User>)
    ensures
        user_view(found) == lookup(rows_of(users@), key@),
{
    match position_in(users, key) {
        Some(i) => {
            proof {
                lemma_lookup_first(rows_of(users@), key@, i as int);
            }
            Some(users[i].clone())
        },
        None => {
            proof {
                lemma_lookup_finds(rows_of(users@), key@);
            }
            None
        },
    }
}

/// The users of the service, with their current tokens.
pub struct SessionStore {
    users: Vec<User>,
    next_id: i32,
}

impl View for SessionStore {
    type V = Seq<UserView>;

    closed spec fn view(&self) -> Seq<UserView> {
        rows_of(self.users@)
    }
}

impl SessionStore {
    #[verifier::type_invariant]
    spec fn well_formed(self) -> bool {
        &&& distinct_ids(rows_of(self.users@))
        &&& distinct_usernames(rows_of(self.users@))
        &&& forall|i: int| 0 <= i < self.users@.len() ==> (#[trigger] self.users@[i]).id < self.next_id
    }

    /// The id that the next new user gets. Ids are handed out in order and
    /// never again, so every user in the store has a smaller one.
    pub closed spec fn next_id(&self) -> int {
        self.next_id as int
    }

    /// Whether the store has run out of ids for new users.
    pub open spec fn is_full(&self) -> bool {
        self.next_id() == i32::MAX
    }

    /// An empty store, whose first user will get the id 1.
    pub fn new() -> (store: SessionStore)
        ensures
            store@ == Seq::<UserView>::empty(),
            store.next_id() == 1,
            !store.is_full(),
    {
        SessionStore { users: Vec::new(), next_id: 1 }
    }

    /// The number of users, soft-deleted ones included.
    pub fn len(&self) -> (n: usize)
        ensures
            n == self@.len(),
    {
        self.users.len()
    }

    fn position(&self, key: &UserKey) -> (found: Option<usize>)
        ensures
            match found {
                Some(i) => is_first_match(self@, key@, i as int),
                None => !has_match(self@, key@),
            },
    {
        position_in(&self.users, key)
    }

    /// The first user that `key` selects.
    pub fn find(&self, key: &UserKey) -> (found: Option<User>)
        ensures
            user_view(found) == lookup(self@, key@),
            distinct_ids(self@),
            distinct_usernames(self@),
    {
        proof {
            use_type_invariant(self);
        }
        select_user(&self.users, key)
    }

    /// The user that `token` authorizes: the live user whose current token is
    /// exactly `token`. `None` is the ordinary answer for a token that nobody
    /// holds, not a fault.
    pub fn find_by_current_token(&self, token: &str) -> (found: Option<User>)
        ensures
            user_view(found) == session_of(self@, token@),
            distinct_ids(self@),
            distinct_usernames(self@),
    {
        self.find(&UserKey::Session(token.to_owned()))
    }

    /// The live user with this username.
    pub fn find_by_username(&self, username: &str) -> (found: Option<User>)
        ensures
            user_view(found) == lookup(self@, UserKeyView::LiveUsername(username@)),
            distinct_ids(self@),
            distinct_usernames(self@),
    {
        self.find(&UserKey::LiveUsername(username.to_owned()))
    }

    /// The user with this id, soft-deleted or not.
    pub fn find_by_id(&self, id: i32) -> (found: Option<User>)
        ensures
            user_view(found) == lookup(self@, UserKeyView::Id(id)),
            distinct_ids(self@),
            distinct_usernames(self@),
    {
        self.find(&UserKey::Id(id))
    }

    /// Every user, in the order they were added.
    pub fn all(&self) -> (users: Vec<User>)
        ensures
            rows_of(users@) == self@,
    {
        let mut users: Vec<User> = Vec::new();
        let mut i: usize = 0;
        while i < self.users.len()
            invariant
                i <= self.users@.len(),
                users@.len() == i,
                forall|j: int| 0 <= j < i ==> (#[trigger] users@[j])@ == self.users@[j]@,
            decreases self.users@.len() - i,
        {
            users.push(self.users[i].clone());
            i += 1;
        }
        users
    }

    /// Adds a live user under the next id.
    ///
    /// A username that any user has, soft-deleted or not, is refused as taken
    /// and the store stays as it was, its next id included.
    pub fn insert(&mut self, username: String, password: String, token: Option<String>) -> (r:
        Result<User, AppError>)
        ensures
            match r {
                Ok(u) => {
                    &&& !has_match(old(self)@, UserKeyView::Username(username@))
                    &&& !old(self).is_full()
                    &&& u.id == old(self).next_id()
                    &&& final(self).next_id() == old(self).next_id() + 1
                    &&& !has_match(old(self)@, UserKeyView::Id(u.id))
                    &&& u@ == (UserView {
                        id: u.id,
                        username: username@,
                        password: password@,
                        token: text_view(token),
                        deleted_at: None,
                    })
                    &&& final(self)@ == old(self)@.push(u@)
                },
                Err(e) => {
                    &&& final(self)@ == old(self)@
                    &&& final(self).next_id() == old(self).next_id()
                    &&& if has_match(old(self)@, UserKeyView::Username(username@)) {
                        e@ == username_taken()
                    } else {
                        old(self).is_full() && e@ == internal()
                    }
                },
            },
    {
        proof {
            use_type_invariant(&*self);
        }
        let key = UserKey::Username(username.clone());
        if self.position(&key).is_some() {
            return Err(AppError::username_taken());
        }
        if self.next_id == i32::MAX {
            return Err(AppError::internal());
        }
        let id: i32 = self.next_id;
        let user = User { id, username, password, token, deleted_at: None };
        let copy = user.clone();
        let ghost before = self.users@;
        let mut users: Vec<User> = Vec::new();
        std::mem::swap(&mut users, &mut self.users);
        users.push(user);
        proof {
            let rows = rows_of(users@);
            assert(rows =~= rows_of(before).push(copy@));
        }
        self.next_id = id + 1;
        self.users = users;
        Ok(copy)
    }

    /// Replaces the current token of the live user `user_id`: a new token on
    /// login or registration, none on logout.
    ///
    /// The user's earlier token stops authorizing at once. Where there is no
    /// live user with that id, nothing changes and the generic internal error
    /// is returned.
    pub fn replace_token(&mut self, user_id: i32, new_token: Option<String>) -> (r: Result<
        User,
        AppError,
    >)
        ensures
            final(self).next_id() == old(self).next_id(),
            match r {
                Ok(u) => {
                    &&& lookup(old(self)@, UserKeyView::LiveId(user_id)) matches Some(before)
                        && u@ == before.with_token(text_view(new_token))
                    &&& final(self)@ == replace_token(old(self)@, user_id, text_view(new_token))
                },
                Err(e) => {
                    &&& !has_match(old(self)@, UserKeyView::LiveId(user_id))
                    &&& final(self)@ == old(self)@
                    &&& e@ == internal()
                },
            },
    {
        proof {
            use_type_invariant(&*self);
        }
        let key = UserKey::LiveId(user_id);
        match self.position(&key) {
            None => Err(AppError::internal()),
            Some(i) => {
                let updated = self.users[i].clone().with_token(new_token);
                let copy = updated.clone();
                let ghost before = self.users@;
                proof {
                    lemma_lookup_first(self@, key@, i as int);
                }
                let mut users: Vec<User> = Vec::new();
                std::mem::swap(&mut users, &mut self.users);
                users.set(i, updated);
                proof {
                    let rows = rows_of(users@);
                    let old_rows = rows_of(before);
                    assert forall|a: int, b: int| 0 <= a < b < rows.len() implies (
                    #[trigger] rows[a]).id != (#[trigger] rows[b]).id by {
                        assert(old_rows[a].id != old_rows[b].id);
                    }
                    assert forall|a: int, b: int| 0 <= a < b < rows.len() implies (
                    #[trigger] rows[a]).username != (#[trigger] rows[b]).username by {
                        assert(old_rows[a].username != old_rows[b].username);
                    }
                }
                self.users = users;
                Ok(copy)
            },
        }
    }

    /// Stores `user` in place of the user with the same id.
    ///
    /// Where there is no user with that id, or another user has the username,
    /// nothing changes and the generic internal error is returned.
    pub fn update(&mut self, user: User) -> (r: Result<User, AppError>)
        ensures
            final(self).next_id() == old(self).next_id(),
            match r {
                Ok(stored) => {
                    &&& stored@ == user@
                    &&& has_match(old(self)@, UserKeyView::Id(user.id))
                    &&& !username_clashes(old(self)@, user@)
                    &&& final(self)@ == replace_row(old(self)@, user@)
                },
                Err(e) => {
                    &&& !has_match(old(self)@, UserKeyView::Id(user.id)) || username_clashes(
                        old(self)@,
                        user@,
                    )
                    &&& final(self)@ == old(self)@
                    &&& e@ == internal()
                },
            },
    {
        proof {
            use_type_invariant(&*self);
        }
        let at = match self.position(&UserKey::Id(user.id)) {
            Some(i) => i,
            None => {
                return Err(AppError::internal());
            },
        };
        let ghost rows = self@;
        match self.position(&UserKey::Username(user.username.clone())) {
            Some(j) => {
                if j != at {
                    return Err(AppError::internal());
                }
            },
            None => {},
        }
        let copy = user.clone();
        let mut users: Vec<User> = Vec::new();
        std::mem::swap(&mut users, &mut self.users);
        users.set(at, user);
        proof {
            let new_rows = rows_of(users@);
            assert forall|a: int, b: int| 0 <= a < b < new_rows.len() implies (
            #[trigger] new_rows[a]).id != (#[trigger] new_rows[b]).id by {
                assert(rows[a].id != rows[b].id);
            }
            assert forall|a: int, b: int| 0 <= a < b < new_rows.len() implies (
            #[trigger] new_rows[a]).username != (#[trigger] new_rows[b]).username by {
                assert(rows[a].username != rows[b].username);
            }
        }
        self.users = users;
        Ok(copy)
    }
}

} // verus!
