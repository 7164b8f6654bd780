//! Soft-deleting a task of the authenticated user.

use vstd::prelude::*;
use crate::app_error::{not_found, AppError};
use crate::jwt::unix_now;
use crate::task_queries::{
    distinct_task_ids, find_task_by_id, has_task_of, lemma_task_with_id, replace_task,
    save_active_task, task_with_id, ActiveTask, TaskStore,
};
use crate::user::User;

verus! {

/// Marks the live task `task_id` of `user` as deleted at time `now`. The task
/// stays in the store and is no longer listed or found.
///
/// 404 where `user` has no such task; the store then stays as it was.
pub fn delete_task_at(db: &mut TaskStore, task_id: i32, user: &User, now: i64) -> (r: Result<
    (),
    AppError,
>)
    ensures
        final(db).next_id() == old(db).next_id(),
        distinct_task_ids(old(db)@),
        distinct_task_ids(final(db)@),
        match r {
            Ok(_) => has_task_of(old(db)@, task_id, user.id) && final(db)@ == replace_task(
                old(db)@,
                task_with_id(old(db)@, task_id).deleted(now),
            ),
            Err(e) => !has_task_of(old(db)@, task_id, user.id) && final(db)@ == old(db)@ && e@
                == not_found(),
        },
{
    let task = match find_task_by_id(db, task_id, user.id) {
        Ok(t) => t,
        Err(e) => {
            return Err(e);
        },
    };
    proof {
        lemma_task_with_id(db@, task@);
    }
    let mut active = ActiveTask::of(task);
    active.deleted_at = Some(now);
    match save_active_task(db, active) {
        Ok(_) => Ok(()),
        Err(_) => Err(AppError::not_found()),
    }
}

/// Marks the live task `task_id` of `user` as deleted at the current time.
///
/// Whatever the clock says: 404 exactly where `user` has no such task, and
/// otherwise only that task changes, and only in that it is deleted.
pub fn delete_task(db: &mut TaskStore, task_id: i32, user: &User) -> (r: Result<(), AppError>)
    ensures
        final(db).next_id() == old(db).next_id(),
        distinct_task_ids(old(db)@),
        distinct_task_ids(final(db)@),
        match r {
            Ok(_) => has_task_of(old(db)@, task_id, user.id) && exists|now: i64|
                final(db)@ == replace_task(
                    old(db)@,
                    #[trigger] task_with_id(old(db)@, task_id).deleted(now),
                ),
            Err(e) => !has_task_of(old(db)@, task_id, user.id) && final(db)@ == old(db)@ && e@
                == not_found(),
        },
{
    let now = unix_now();
    delete_task_at(db, task_id, user, now)
}

} // verus!
