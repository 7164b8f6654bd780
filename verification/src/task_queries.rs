//! The table of tasks and the queries the task routes make.

use vstd::prelude::*;
use crate::app_error::{bad_request, internal, not_found, AppError};
use crate::create_task::{task_violation, ValidateCreateTask};
use crate::tasks::{Task, TaskView};
use crate::user::{text_view, User};

verus! {

/// A task on its way into the store: without an id it is new, with one it
/// replaces the task that has that id.
#[derive(Debug)]
pub struct ActiveTask {
    pub id: Option<i32>,
    pub priority: Option<String>,
    pub title: String,
    pub completed_at: Option<String>,
    pub description: Option<String>,
    pub deleted_at: Option<i64>,
    pub user_id: Option<i32>,
}

impl ActiveTask {
    /// The task this becomes once it is stored under `id`.
    pub open spec fn stored_as(self, id: i32) -> TaskView {
        TaskView {
            id,
            priority: text_view(self.priority),
            title: self.title@,
            completed_at: text_view(self.completed_at),
            description: text_view(self.description),
            deleted_at: self.deleted_at,
            user_id: self.user_id,
        }
    }

    /// A stored task, ready to be changed and saved again.
    pub fn of(task: Task) -> (active: ActiveTask)
        ensures
            active.id == Some(task.id),
            active.stored_as(task.id) == task@,
    {
        ActiveTask {
            id: Some(task.id),
            priority: task.priority,
            title: task.title,
            completed_at: task.completed_at,
            description: task.description,
            deleted_at: task.deleted_at,
            user_id: task.user_id,
        }
    }
}

/// The views of a sequence of tasks.
pub open spec fn task_rows_of(tasks: Seq<Task>) -> Seq<TaskView> {
    Seq::new(tasks.len(), |i: int| tasks[i]@)
}

/// No two tasks share an id.
pub open spec fn distinct_task_ids(rows: Seq<TaskView>) -> bool {
    forall|i: int, j: int|
        0 <= i < j < rows.len() ==> (#[trigger] rows[i]).id != (#[trigger] rows[j]).id
}

/// Some task has the id `id`.
pub open spec fn has_task(rows: Seq<TaskView>, id: i32) -> bool {
    exists|i: int| 0 <= i < rows.len() && (#[trigger] rows[i]).id == id
}

/// Some task is the live task `task_id` of the user `user_id`.
pub open spec fn has_task_of(rows: Seq<TaskView>, task_id: i32, user_id: i32) -> bool {
    exists|i: int| 0 <= i < rows.len() && (#[trigger] rows[i]).is_task_of(task_id, user_id)
}

/// The task with the id `id`, where there is one.
pub open spec fn task_with_id(rows: Seq<TaskView>, id: i32) -> TaskView {
    rows[choose|i: int| 0 <= i < rows.len() && (#[trigger] rows[i]).id == id]
}

/// Where ids are unique, a task that is in the table is the task with its id.
pub proof fn lemma_task_with_id(rows: Seq<TaskView>, task: TaskView)
    requires
        distinct_task_ids(rows),
        rows.contains(task),
    ensures
        task_with_id(rows, task.id) == task,
        has_task(rows, task.id),
{
    let i = choose|i: int| 0 <= i < rows.len() && rows[i] == task;
    let k = choose|k: int| 0 <= k < rows.len() && (#[trigger] rows[k]).id == task.id;
    assert(rows[i].id == task.id);
    assert(k == i);
}

/// The rows after the task with the id of `task` was replaced by `task`.
pub open spec fn replace_task(rows: Seq<TaskView>, task: TaskView) -> Seq<TaskView> {
    Seq::new(
        rows.len(),
        |i: int|
            if rows[i].id == task.id {
                task
            } else {
                rows[i]
            },
    )
}

/// The tasks listed for the user `user_id`, in the store's order.
pub open spec fn tasks_listed_for(rows: Seq<TaskView>, user_id: i32, get_deleted: bool) -> Seq<
    TaskView,
> {
    rows.filter(|t: TaskView| t.is_listed_for(user_id, get_deleted))
}

/// The tasks of the service.
pub struct TaskStore {
    tasks: Vec<Task>,
    next_id: i32,
}

impl View for TaskStore {
    type V = Seq<TaskView>;

    closed spec fn view(&self) -> Seq<TaskView> {
        task_rows_of(self.tasks@)
    }
}

impl TaskStore {
    #[verifier::type_invariant]
    spec fn well_formed(self) -> bool {
        &&& distinct_task_ids(task_rows_of(self.tasks@))
        &&& forall|i: int| 0 <= i < self.tasks@.len() ==> (#[trigger] self.tasks@[i]).id < self.next_id
    }

    /// The id that the next new task gets. Ids are handed out in order and
    /// never again, so every task in the store has a smaller one.
    pub closed spec fn next_id(&self) -> int {
        self.next_id as int
    }

    /// Whether the store has run out of ids for new tasks.
    pub open spec fn is_full(&self) -> bool {
        self.next_id() == i32::MAX
    }

    /// An empty store, whose first task will get the id 1.
    pub fn new() -> (store: TaskStore)
        ensures
            store@ == Seq::<TaskView>::empty(),
            store.next_id() == 1,
            !store.is_full(),
    {
        TaskStore { tasks: Vec::new(), next_id: 1 }
    }

    /// The number of tasks, soft-deleted ones included.
    pub fn len(&self) -> (n: usize)
        ensures
            n == self@.len(),
    {
        self.tasks.len()
    }

    fn position_of_id(&self, id: i32) -> (found: Option<usize>)
        ensures
            match found {
                Some(i) => i < self@.len() && self@[i as int].id == id,
                None => !has_task(self@, id),
            },
    {
        let mut i: usize = 0;
        while i < self.tasks.len()
            invariant
                i <= self.tasks@.len(),
                forall|j: int| 0 <= j < i ==> (#[trigger] self@[j]).id != id,
            decreases self.tasks@.len() - i,
        {
            if self.tasks[i].id == id {
                return Some(i);
            }
            i += 1;
        }
        None
    }
}

/// Stores `task`: as a new task under the next id where it has none, in place
/// of the task with its id where it has one.
///
/// Where the ids have run out, or no task has the id, nothing changes and the
/// generic internal error is returned.
pub fn save_active_task(db: &mut TaskStore, task: ActiveTask) -> (r: Result<Task, AppError>)
    ensures
        distinct_task_ids(old(db)@),
        distinct_task_ids(final(db)@),
        match r {
            Ok(saved) => match task.id {
                None => {
                    &&& !old(db).is_full()
                    &&& saved.id == old(db).next_id()
                    &&& final(db).next_id() == old(db).next_id() + 1
                    &&& !has_task(old(db)@, saved.id)
                    &&& saved@ == task.stored_as(saved.id)
                    &&& final(db)@ == old(db)@.push(saved@)
                },
                Some(id) => {
                    &&& has_task(old(db)@, id)
                    &&& final(db).next_id() == old(db).next_id()
                    &&& saved@ == task.stored_as(id)
                    &&& final(db)@ == replace_task(old(db)@, saved@)
                },
            },
            Err(e) => {
                &&& match task.id {
                    None => old(db).is_full(),
                    Some(id) => !has_task(old(db)@, id),
                }
                &&& final(db)@ == old(db)@
                &&& final(db).next_id() == old(db).next_id()
                &&& e@ == internal()
            },
        },
{
    proof {
        use_type_invariant(&*db);
    }
    let ghost rows = db@;
    match task.id {
        None => {
            if db.next_id == i32::MAX {
                return Err(AppError::internal());
            }
            let id: i32 = db.next_id;
            let saved = convert_active_to_model(task, id);
            let copy = saved.clone();
            let mut tasks: Vec<Task> = Vec::new();
            std::mem::swap(&mut tasks, &mut db.tasks);
            tasks.push(saved);
            proof {
                let new_rows = task_rows_of(tasks@);
                assert forall|a: int, b: int| 0 <= a < b < new_rows.len() implies (
                #[trigger] new_rows[a]).id != (#[trigger] new_rows[b]).id by {
                    if b < rows.len() {
                        assert(rows[a].id != rows[b].id);
                    }
                }
            }
            db.next_id = id + 1;
            db.tasks = tasks;
            Ok(copy)
        },
        Some(id) => {
            let at = match db.position_of_id(id) {
                Some(i) => i,
                None => {
                    return Err(AppError::internal());
                },
            };
            let saved = convert_active_to_model(task, id);
            let copy = saved.clone();
            let mut tasks: Vec<Task> = Vec::new();
            std::mem::swap(&mut tasks, &mut db.tasks);
            tasks.set(at, saved);
            proof {
                let new_rows = task_rows_of(tasks@);
                assert forall|a: int, b: int| 0 <= a < b < new_rows.len() implies (
                #[trigger] new_rows[a]).id != (#[trigger] new_rows[b]).id by {
                    assert(rows[a].id != rows[b].id);
                }
            }
            db.tasks = tasks;
            Ok(copy)
        },
    }
}

/// The stored form of `active_task` under the id `id`.
fn convert_active_to_model(active_task: ActiveTask, id: i32) -> (task: Task)
    ensures
        task@ == active_task.stored_as(id),
{
    Task {
        id,
        priority: active_task.priority,
        title: active_task.title,
        completed_at: active_task.completed_at,
        description: active_task.description,
        deleted_at: active_task.deleted_at,
        user_id: active_task.user_id,
    }
}

/// The new task that a validated request of `user` asks for.
pub open spec fn requested_task(
    priority: Option<Seq<char>>,
    title: Seq<char>,
    description: Option<Seq<char>>,
    user_id: i32,
    id: i32,
) -> TaskView {
    TaskView {
        id,
        priority,
        title,
        completed_at: None,
        description,
        deleted_at: None,
        user_id: Some(user_id),
    }
}

/// Stores the task that `task` asks for as a new task of `user`.
///
/// A request that breaks a rule is refused with the 400 of the first broken
/// rule; where the ids have run out the generic internal error is returned.
/// Either way the store stays as it was.
pub fn create_task(task: ValidateCreateTask, user: &User, db: &mut TaskStore) -> (r: Result<
    Task,
    AppError,
>)
    ensures
        match r {
            Ok(saved) => saved.id == old(db).next_id() && final(db).next_id() == old(
                db,
            ).next_id() + 1,
            Err(_) => final(db).next_id() == old(db).next_id(),
        },
        match r {
            Ok(saved) => {
                &&& task_violation(text_view(task.priority), text_view(task.title)) is None
                &&& task.title is Some
                &&& !old(db).is_full()
                &&& !has_task(old(db)@, saved.id)
                &&& saved@ == requested_task(
                    text_view(task.priority),
                    task.title.unwrap()@,
                    text_view(task.description),
                    user.id,
                    saved.id,
                )
                &&& final(db)@ == old(db)@.push(saved@)
            },
            Err(e) => {
                &&& final(db)@ == old(db)@
                &&& match task_violation(text_view(task.priority), text_view(task.title)) {
                    Some(message) => e@ == bad_request(message),
                    None => old(db).is_full() && e@ == internal(),
                }
            },
        },
{
    match task.validate() {
        Err(e) => {
            return Err(e);
        },
        Ok(_) => {},
    }
    let title = match task.title {
        Some(t) => t,
        None => {
            return Err(AppError::bad_request("missing task title"));
        },
    };
    let new_task = ActiveTask {
        id: None,
        priority: task.priority,
        title,
        completed_at: None,
        description: task.description,
        deleted_at: None,
        user_id: Some(user.id),
    };
    save_active_task(db, new_task)
}

/// The view of an optional task.
pub open spec fn task_view(task: Option<Task>) -> Option<TaskView> {
    match task {
        Some(t) => Some(t@),
        None => None,
    }
}

/// Whether `found`, the task that has the id `id` if there is one, may be
/// handed to the user `user_id`: it must be that user's and live. 404
/// otherwise, be the task missing, another user's or soft-deleted.
pub fn select_task(found: Option<Task>, id: i32, user_id: i32) -> (r: Result<Task, AppError>)
    ensures
        match r {
            Ok(task) => task_view(found) == Some(task@) && task@.is_task_of(id, user_id),
            Err(e) => !(task_view(found) matches Some(t) && t.is_task_of(id, user_id)) && e@
                == not_found(),
        },
{
    match found {
        Some(task) => {
            if task.is_task_of(id, user_id) {
                Ok(task)
            } else {
                Err(AppError::not_found())
            }
        },
        None => Err(AppError::not_found()),
    }
}

/// The tasks among `tasks` that are listed for the user `user_id`, in their
/// order; soft-deleted ones only where `get_deleted` asks for them.
pub fn select_listed(tasks: &Vec<Task>, user_id: i32, get_deleted: bool) -> (listed: Vec<Task>)
    ensures
        task_rows_of(listed@) == tasks_listed_for(task_rows_of(tasks@), user_id, get_deleted),
{
    let ghost rows = task_rows_of(tasks@);
    let ghost is_listed = |t: TaskView| t.is_listed_for(user_id, get_deleted);
    let mut listed: Vec<Task> = Vec::new();
    let mut i: usize = 0;
    proof {
        reveal(Seq::filter);
    }
    while i < tasks.len()
        invariant
            i <= tasks@.len(),
            rows == task_rows_of(tasks@),
            is_listed == |t: TaskView| t.is_listed_for(user_id, get_deleted),
            task_rows_of(listed@) == rows.take(i as int).filter(is_listed),
        decreases tasks@.len() - i,
    {
        proof {
            reveal(Seq::filter);
            assert(rows.take(i + 1).drop_last() =~= rows.take(i as int));
        }
        if tasks[i].is_listed_for(user_id, get_deleted) {
            listed.push(tasks[i].clone());
        }
        i += 1;
    }
    assert(rows.take(i as int) =~= rows);
    listed
}

/// The live task `id` of the user `user_id`; 404 where there is none.
pub fn find_task_by_id(db: &TaskStore, id: i32, user_id: i32) -> (r: Result<Task, AppError>)
    ensures
        distinct_task_ids(db@),
        match r {
            Ok(task) => db@.contains(task@) && task@.is_task_of(id, user_id),
            Err(e) => !has_task_of(db@, id, user_id) && e@ == not_found(),
        },
{
    proof {
        use_type_invariant(db);
    }
    let found = match db.position_of_id(id) {
        Some(i) => Some(db.tasks[i].clone()),
        None => None,
    };
    select_task(found, id, user_id)
}

/// The tasks of the user `user_id`, in the store's order; soft-deleted ones
/// only where `get_deleted` asks for them.
pub fn find_all_tasks(db: &TaskStore, user_id: i32, get_deleted: bool) -> (tasks: Vec<Task>)
    ensures
        task_rows_of(tasks@) == tasks_listed_for(db@, user_id, get_deleted),
{
    select_listed(&db.tasks, user_id, get_deleted)
}

} // verus!
