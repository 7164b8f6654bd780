//! The task record.

use vstd::prelude::*;
use crate::user::{clone_text, text_view};

verus! {

/// A task as the store holds it.
#[derive(Debug)]
pub struct Task {
    pub id: i32,
    pub priority: Option<String>,
    pub title: String,
    /// When the task was completed, already rendered as text.
    pub completed_at: Option<String>,
    pub description: Option<String>,
    /// When the task was soft-deleted, in seconds since the Unix epoch.
    pub deleted_at: Option<i64>,
    /// The user the task belongs to.
    pub user_id: Option<i32>,
}

/// The mathematical value of a [`Task`].
pub struct TaskView {
    pub id: i32,
    pub priority: Option<Seq<char>>,
    pub title: Seq<char>,
    pub completed_at: Option<Seq<char>>,
    pub description: Option<Seq<char>>,
    pub deleted_at: Option<i64>,
    pub user_id: Option<i32>,
}

impl View for Task {
    type V = TaskView;

    open spec fn view(&self) -> TaskView {
        TaskView {
            id: self.id,
            priority: text_view(self.priority),
            title: self.title@,
            completed_at: text_view(self.completed_at),
            description: text_view(self.description),
            deleted_at: self.deleted_at,
            user_id: self.user_id,
        }
    }
}

impl TaskView {
    /// A task that was not soft-deleted.
    pub open spec fn is_live(self) -> bool {
        self.deleted_at is None
    }

    /// Whether the task is the live task `task_id` of the user `user_id`.
    pub open spec fn is_task_of(self, task_id: i32, user_id: i32) -> bool {
        self.id == task_id && self.user_id == Some(user_id) && self.is_live()
    }

    /// Whether the task is listed for the user `user_id`: it is that user's,
    /// and it is live unless soft-deleted tasks are asked for too.
    pub open spec fn is_listed_for(self, user_id: i32, get_deleted: bool) -> bool {
        self.user_id == Some(user_id) && (get_deleted || self.is_live())
    }

    /// The same task, soft-deleted at `time`.
    pub open spec fn deleted(self, time: i64) -> TaskView {
        TaskView { deleted_at: Some(time), ..self }
    }
}

impl Clone for Task {
    fn clone(&self) -> (copy: Task)
        ensures
            copy@ == self@,
    {
        Task {
            id: self.id,
            priority: clone_text(&self.priority),
            title: self.title.clone(),
            completed_at: clone_text(&self.completed_at),
            description: clone_text(&self.description),
            deleted_at: self.deleted_at,
            user_id: self.user_id,
        }
    }
}

impl Task {
    /// Whether this is the live task `task_id` of the user `user_id`.
    pub fn is_task_of(&self, task_id: i32, user_id: i32) -> (yes: bool)
        ensures
            yes == self@.is_task_of(task_id, user_id),
    {
        let owned = match self.user_id {
            Some(owner) => owner == user_id,
            None => false,
        };
        self.id == task_id && owned && self.deleted_at.is_none()
    }

    /// Whether the task is listed for the user `user_id`.
    pub fn is_listed_for(&self, user_id: i32, get_deleted: bool) -> (yes: bool)
        ensures
            yes == self@.is_listed_for(user_id, get_deleted),
    {
        let owned = match self.user_id {
            Some(owner) => owner == user_id,
            None => false,
        };
        owned && (get_deleted || self.deleted_at.is_none())
    }
}

} // verus!
