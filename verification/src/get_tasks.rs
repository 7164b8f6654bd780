//! Reading the tasks of the authenticated user.

use vstd::prelude::*;
use crate::app_error::{not_found, AppError, StatusCode};
use crate::task_queries::{
    distinct_task_ids, find_all_tasks, find_task_by_id, has_task_of, lemma_task_with_id,
    task_rows_of, task_with_id, tasks_listed_for, TaskStore,
};
use crate::tasks::{Task, TaskView};
use crate::user::{clone_text, text_view, User};

verus! {

/// What a client is shown of a task it reads.
#[derive(Debug, PartialEq, Eq)]
pub struct ResponseTask {
    pub id: i32,
    pub title: String,
    pub priority: Option<String>,
    pub description: Option<String>,
    pub completed_at: Option<String>,
    pub user_id: Option<i32>,
    pub deleted_at: Option<i64>,
}

/// The tasks of one user.
#[derive(Debug, PartialEq, Eq)]
pub struct ResponseDataTasks {
    pub data: Vec<ResponseTask>,
}

/// The mathematical value of a [`ResponseTask`].
pub struct ResponseTaskView {
    pub id: i32,
    pub title: Seq<char>,
    pub priority: Option<Seq<char>>,
    pub description: Option<Seq<char>>,
    pub completed_at: Option<Seq<char>>,
    pub user_id: Option<i32>,
    pub deleted_at: Option<i64>,
}

impl View for ResponseTask {
    type V = ResponseTaskView;

    open spec fn view(&self) -> ResponseTaskView {
        ResponseTaskView {
            id: self.id,
            title: self.title@,
            priority: text_view(self.priority),
            description: text_view(self.description),
            completed_at: text_view(self.completed_at),
            user_id: self.user_id,
            deleted_at: self.deleted_at,
        }
    }
}

/// What a client is shown of the task `t`.
pub open spec fn task_response_of(t: TaskView) -> ResponseTaskView {
    ResponseTaskView {
        id: t.id,
        title: t.title,
        priority: t.priority,
        description: t.description,
        completed_at: t.completed_at,
        user_id: t.user_id,
        deleted_at: t.deleted_at,
    }
}

impl ResponseTask {
    /// What a client is shown of `task`.
    pub fn of(task: &Task) -> (response: ResponseTask)
        ensures
            response@ == task_response_of(task@),
    {
        ResponseTask {
            id: task.id,
            title: task.title.clone(),
            priority: clone_text(&task.priority),
            description: clone_text(&task.description),
            completed_at: clone_text(&task.completed_at),
            user_id: task.user_id,
            deleted_at: task.deleted_at,
        }
    }
}

/// The answer to a request that read `task`: 200, with what the client is
/// shown of the task.
pub fn task_answer(task: &Task) -> (answer: (StatusCode, ResponseTask))
    ensures
        answer.0 == StatusCode::Success,
        answer.1@ == task_response_of(task@),
{
    (StatusCode::Success, ResponseTask::of(task))
}

/// The answer to a request that listed `tasks`: 200, with what the client is
/// shown of each, in the same order.
pub fn tasks_answer(tasks: &Vec<Task>) -> (answer: (StatusCode, ResponseDataTasks))
    ensures
        answer.0 == StatusCode::Success,
        answer.1.data@.len() == tasks@.len(),
        forall|i: int|
            0 <= i < tasks@.len() ==> (#[trigger] answer.1.data@[i])@ == task_response_of(
                tasks@[i]@,
            ),
{
    let mut data: Vec<ResponseTask> = Vec::new();
    let mut i: usize = 0;
    while i < tasks.len()
        invariant
            i <= tasks@.len(),
            data@.len() == i,
            forall|j: int| 0 <= j < i ==> (#[trigger] data@[j])@ == task_response_of(tasks@[j]@),
        decreases tasks@.len() - i,
    {
        data.push(ResponseTask::of(&tasks[i]));
        i += 1;
    }
    (StatusCode::Success, ResponseDataTasks { data })
}

/// The live task `task_id` of `user`, with 200; 404 where `user` has no such
/// task, be it another user's or soft-deleted. No two tasks share an id, so
/// the task with that id is one task.
pub fn get_one_task(task_id: i32, db: &TaskStore, user: &User) -> (r: Result<
    (StatusCode, ResponseTask),
    AppError,
>)
    ensures
        distinct_task_ids(db@),
        match r {
            Ok((code, response)) => {
                &&& code == StatusCode::Success
                &&& has_task_of(db@, task_id, user.id)
                &&& response@ == task_response_of(task_with_id(db@, task_id))
            },
            Err(e) => !has_task_of(db@, task_id, user.id) && e@ == not_found(),
        },
{
    match find_task_by_id(db, task_id, user.id) {
        Ok(task) => {
            proof {
                lemma_task_with_id(db@, task@);
            }
            Ok(task_answer(&task))
        },
        Err(e) => Err(e),
    }
}

/// The live tasks of `user`, in the store's order, with 200.
pub fn get_all_tasks(db: &TaskStore, user: &User) -> (r: Result<
    (StatusCode, ResponseDataTasks),
    AppError,
>)
    ensures
        r matches Ok((code, response)) && code == StatusCode::Success && {
            let listed = tasks_listed_for(db@, user.id, false);
            &&& response.data@.len() == listed.len()
            &&& forall|i: int|
                0 <= i < listed.len() ==> (#[trigger] response.data@[i])@ == task_response_of(
                    listed[i],
                )
        },
{
    let tasks = find_all_tasks(db, user.id, false);
    let answer = tasks_answer(&tasks);
    proof {
        let listed = tasks_listed_for(db@, user.id, false);
        assert forall|i: int| 0 <= i < listed.len() implies (#[trigger] answer.1.data@[i])@
            == task_response_of(listed[i]) by {
            assert(task_rows_of(tasks@)[i] == tasks@[i]@);
        }
    }
    Ok(answer)
}

} // verus!
