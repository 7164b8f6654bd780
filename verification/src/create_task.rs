//! Creating a task for the authenticated user.

use vstd::prelude::*;
use crate::app_error::{bad_request, internal, AppError, StatusCode};
use crate::task_queries::{has_task, requested_task, TaskStore};
use crate::tasks::{Task, TaskView};
use crate::user::{clone_text, text_view, User};
use crate::validation::length_is_within;

verus! {

/// The body of a request for a new task, as it arrives.
#[derive(Debug)]
pub struct ValidateCreateTask {
    /// One character where it is given.
    pub priority: Option<String>,
    /// Required.
    pub title: Option<String>,
    pub description: Option<String>,
}

/// The body of a request for a new task whose title is known to be there.
#[derive(Debug)]
pub struct RequestTask {
    pub title: String,
    pub priority: Option<String>,
    pub description: Option<String>,
}

/// What a client is shown of a task.
#[derive(Debug, PartialEq, Eq)]
pub struct ResponseTask {
    pub id: i32,
    pub title: String,
    pub description: Option<String>,
    pub priority: Option<String>,
    pub completed_at: Option<String>,
    pub user_id: Option<i32>,
}

/// The mathematical value of a [`ResponseTask`].
pub struct ResponseTaskView {
    pub id: i32,
    pub title: Seq<char>,
    pub description: Option<Seq<char>>,
    pub priority: Option<Seq<char>>,
    pub completed_at: Option<Seq<char>>,
    pub user_id: Option<i32>,
}

impl View for ResponseTask {
    type V = ResponseTaskView;

    open spec fn view(&self) -> ResponseTaskView {
        ResponseTaskView {
            id: self.id,
            title: self.title@,
            description: text_view(self.description),
            priority: text_view(self.priority),
            completed_at: text_view(self.completed_at),
            user_id: self.user_id,
        }
    }
}

/// What a client is shown of the task `t`.
pub open spec fn task_response_of(t: TaskView) -> ResponseTaskView {
    ResponseTaskView {
        id: t.id,
        title: t.title,
        description: t.description,
        priority: t.priority,
        completed_at: t.completed_at,
        user_id: t.user_id,
    }
}

/// The message of the first rule that a request for a new task breaks, if it
/// breaks one: a priority that is given must be exactly one character, and
/// the title must be given.
pub open spec fn task_violation(priority: Option<Seq<char>>, title: Option<Seq<char>>) -> Option<
    Seq<char>,
> {
    if priority matches Some(p) && p.len() != 1 {
        Some("priority must be a single character"@)
    } else if title is None {
        Some("missing task title"@)
    } else {
        None
    }
}

impl ValidateCreateTask {
    /// Holds the request to its rules. Only the first broken rule is
    /// reported, as a 400 with that rule's message.
    pub fn validate(&self) -> (r: Result<(), AppError>)
        ensures
            match r {
                Ok(_) => task_violation(text_view(self.priority), text_view(self.title)) is None,
                Err(e) => task_violation(text_view(self.priority), text_view(self.title)) matches Some(
                    message,
                ) && e@ == bad_request(message),
            },
    {
        match &self.priority {
            Some(p) => {
                if !length_is_within(p.as_str(), Some(1), Some(1)) {
                    return Err(AppError::bad_request("priority must be a single character"));
                }
            },
            None => {},
        }
        if self.title.is_none() {
            return Err(AppError::bad_request("missing task title"));
        }
        Ok(())
    }
}

impl RequestTask {
    /// The same request in the form that is validated.
    pub fn into_validate(self) -> (task: ValidateCreateTask)
        ensures
            text_view(task.title) == Some(self.title@),
            text_view(task.priority) == text_view(self.priority),
            text_view(task.description) == text_view(self.description),
    {
        ValidateCreateTask {
            priority: self.priority,
            title: Some(self.title),
            description: self.description,
        }
    }
}

impl ResponseTask {
    /// What a client is shown of `task`.
    pub fn of(task: &Task) -> (response: ResponseTask)
        ensures
            response@ == task_response_of(task@),
    {
        ResponseTask {
            id: task.id,
            title: task.title.clone(),
            description: clone_text(&task.description),
            priority: clone_text(&task.priority),
            completed_at: clone_text(&task.completed_at),
            user_id: task.user_id,
        }
    }
}

/// The answer to a request that stored `task`: 201, with what the client is
/// shown of the task.
pub fn created(task: &Task) -> (answer: (StatusCode, ResponseTask))
    ensures
        answer.0 == StatusCode::Created,
        answer.1@ == task_response_of(task@),
{
    (StatusCode::Created, ResponseTask::of(task))
}

/// Creates the task that `task` asks for as a task of `user` and answers 201
/// with what the client is shown of it.
///
/// A request that breaks a rule gets the 400 of the first broken rule, and
/// nothing is stored.
pub fn create_task(user: &User, db: &mut TaskStore, task: ValidateCreateTask) -> (r: Result<
    (StatusCode, ResponseTask),
    AppError,
>)
    ensures
        match r {
            Ok((code, response)) => response.id == old(db).next_id() && final(db).next_id() == old(
                db,
            ).next_id() + 1,
            Err(_) => final(db).next_id() == old(db).next_id(),
        },
        match r {
            Ok((code, response)) => {
                let saved = final(db)@.last();
                &&& code == StatusCode::Created
                &&& task_violation(text_view(task.priority), text_view(task.title)) is None
                &&& task.title is Some
                &&& !has_task(old(db)@, saved.id)
                &&& saved == requested_task(
                    text_view(task.priority),
                    task.title.unwrap()@,
                    text_view(task.description),
                    user.id,
                    saved.id,
                )
                &&& final(db)@ == old(db)@.push(saved)
                &&& response@ == task_response_of(saved)
            },
            Err(e) => {
                &&& final(db)@ == old(db)@
                &&& match task_violation(text_view(task.priority), text_view(task.title)) {
                    Some(message) => e@ == bad_request(message),
                    None => old(db).is_full() && e@ == internal(),
                }
            },
        },
{
    match crate::task_queries::create_task(task, user, db) {
        Ok(saved) => Ok(created(&saved)),
        Err(e) => Err(e),
    }
}

} // verus!
