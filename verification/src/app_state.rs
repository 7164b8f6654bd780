//! What the process holds for as long as it runs.

use vstd::prelude::*;
use crate::session_store::SessionStore;
use crate::task_queries::TaskStore;
use crate::tasks::TaskView;
use crate::token_wrapper::TokenWrapper;
use crate::user::UserView;

verus! {

/// The state that every handler is handed: the users with their sessions, the
/// tasks, and the signing secret. The secret is set once, here, and only read
/// afterwards.
pub struct AppState {
    pub users: SessionStore,
    pub tasks: TaskStore,
    pub jwt_secret: TokenWrapper,
}

impl AppState {
    /// An empty service that signs its tokens with `jwt_secret`. Its first
    /// user and its first task will get the id 1.
    pub fn new(jwt_secret: &str) -> (state: AppState)
        ensures
            state.users@ == Seq::<UserView>::empty(),
            state.users.next_id() == 1,
            state.tasks@ == Seq::<TaskView>::empty(),
            state.tasks.next_id() == 1,
            state.jwt_secret.0@ == jwt_secret@,
    {
        AppState {
            users: SessionStore::new(),
            tasks: TaskStore::new(),
            jwt_secret: TokenWrapper::new(jwt_secret),
        }
    }
}

} // verus!
