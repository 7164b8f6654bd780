use web_app::app_error::StatusCode;
use web_app::create_task::{RequestTask, ResponseTask, ValidateCreateTask};
use web_app::delete_task::{delete_task, delete_task_at};
use web_app::get_tasks::{get_all_tasks, get_one_task};
use web_app::create_task::created;
use web_app::get_tasks::{task_answer, tasks_answer};
use web_app::task_queries::{
    find_all_tasks, find_task_by_id, save_active_task, select_listed, select_task, ActiveTask,
    TaskStore,
};
use web_app::tasks::Task;
use web_app::user::User;

fn user(id: i32) -> User {
    User {
        id,
        username: format!("user{}@example.com", id),
        password: "hash".to_string(),
        token: None,
        deleted_at: None,
    }
}

fn request(priority: Option<&str>, title: Option<&str>) -> ValidateCreateTask {
    ValidateCreateTask {
        priority: priority.map(|p| p.to_string()),
        title: title.map(|t| t.to_string()),
        description: Some("details".to_string()),
    }
}

fn store_with_three() -> TaskStore {
    let mut db = TaskStore::new();
    web_app::task_queries::create_task(request(Some("A"), Some("one")), &user(1), &mut db)
        .unwrap();
    web_app::task_queries::create_task(request(None, Some("two")), &user(2), &mut db).unwrap();
    web_app::task_queries::create_task(request(Some("B"), Some("three")), &user(1), &mut db)
        .unwrap();
    db
}

#[test]
fn task_validation_reports_the_first_broken_rule() {
    assert!(request(Some("A"), Some("title")).validate().is_ok());
    assert!(request(None, Some("title")).validate().is_ok());
    assert!(request(Some("é"), Some("")).validate().is_ok());
    let missing = request(None, None).validate().err().unwrap();
    assert_eq!(missing.code, StatusCode::BadRequest);
    assert_eq!(missing.message, "missing task title");
    let long = request(Some("AB"), Some("title")).validate().err().unwrap();
    assert_eq!(long.status(), 400);
    assert_eq!(long.message, "priority must be a single character");
    let empty = request(Some(""), Some("title")).validate().err().unwrap();
    assert_eq!(empty.message, "priority must be a single character");
    let both = request(Some("AB"), None).validate().err().unwrap();
    assert_eq!(both.message, "priority must be a single character");
}

#[test]
fn request_task_becomes_a_request_to_validate() {
    let task = RequestTask {
        title: "write".to_string(),
        priority: Some("A".to_string()),
        description: None,
    }
    .into_validate();
    assert_eq!(task.title, Some("write".to_string()));
    assert_eq!(task.priority, Some("A".to_string()));
    assert_eq!(task.description, None);
    assert!(task.validate().is_ok());
}

#[test]
fn created_task_belongs_to_the_user() {
    let mut db = TaskStore::new();
    let (code, response) =
        web_app::create_task::create_task(&user(7), &mut db, request(Some("A"), Some("write")))
            .unwrap();
    assert_eq!(code, StatusCode::Created);
    assert_eq!(code.as_u16(), 201);
    assert_eq!(
        response,
        ResponseTask {
            id: 1,
            title: "write".to_string(),
            description: Some("details".to_string()),
            priority: Some("A".to_string()),
            completed_at: None,
            user_id: Some(7),
        }
    );
    assert_eq!(db.len(), 1);
    let stored = find_task_by_id(&db, 1, 7).unwrap();
    assert_eq!(stored.title, "write");
    assert_eq!(stored.deleted_at, None);
}

#[test]
fn invalid_task_is_not_stored() {
    let mut db = TaskStore::new();
    let error = web_app::create_task::create_task(&user(7), &mut db, request(Some("A"), None))
        .err().unwrap();
    assert_eq!(error.status(), 400);
    assert_eq!(error.message, "missing task title");
    assert_eq!(db.len(), 0);
}

#[test]
fn a_task_is_found_only_by_its_owner() {
    let db = store_with_three();
    assert_eq!(find_task_by_id(&db, 1, 1).unwrap().title, "one");
    assert_eq!(find_task_by_id(&db, 2, 2).unwrap().title, "two");
    let other = find_task_by_id(&db, 2, 1).err().unwrap();
    assert_eq!(other.code, StatusCode::NotFound);
    assert_eq!(other.message, "not found");
    assert_eq!(find_task_by_id(&db, 9, 1).err().unwrap().status(), 404);
}

#[test]
fn listing_keeps_order_and_owner() {
    let db = store_with_three();
    let titles: Vec<String> = find_all_tasks(&db, 1, false).into_iter().map(|t| t.title).collect();
    assert_eq!(titles, vec!["one".to_string(), "three".to_string()]);
    assert_eq!(find_all_tasks(&db, 2, false).len(), 1);
    assert!(find_all_tasks(&db, 3, false).is_empty());
    assert!(find_all_tasks(&db, 3, true).is_empty());
}

#[test]
fn deleted_task_is_hidden_but_kept() {
    let mut db = store_with_three();
    delete_task_at(&mut db, 1, &user(1), 1_700_000_000).unwrap();
    assert_eq!(db.len(), 3);
    assert_eq!(find_task_by_id(&db, 1, 1).err().unwrap().status(), 404);
    let live: Vec<i32> = find_all_tasks(&db, 1, false).into_iter().map(|t| t.id).collect();
    assert_eq!(live, vec![3]);
    let all = find_all_tasks(&db, 1, true);
    assert_eq!(all.len(), 2);
    assert_eq!(all[0].id, 1);
    assert_eq!(all[0].deleted_at, Some(1_700_000_000));
    assert_eq!(all[0].title, "one");
    assert_eq!(all[1].deleted_at, None);
    let again = delete_task_at(&mut db, 1, &user(1), 1_700_000_001).err().unwrap();
    assert_eq!(again.status(), 404);
}

#[test]
fn a_task_cannot_be_deleted_by_another_user() {
    let mut db = store_with_three();
    let error = delete_task_at(&mut db, 2, &user(1), 5).err().unwrap();
    assert_eq!(error.status(), 404);
    assert_eq!(error.message, "not found");
    assert_eq!(find_task_by_id(&db, 2, 2).unwrap().deleted_at, None);
}

#[test]
fn delete_task_reads_the_clock() {
    let mut db = store_with_three();
    let before = chrono::Utc::now().timestamp();
    delete_task(&mut db, 3, &user(1)).unwrap();
    let after = chrono::Utc::now().timestamp();
    let deleted_at = find_all_tasks(&db, 1, true)[1].deleted_at.unwrap();
    assert!(before <= deleted_at && deleted_at <= after);
    assert_eq!(delete_task(&mut db, 9, &user(1)).err().unwrap().status(), 404);
}

#[test]
fn reading_one_task() {
    let db = store_with_three();
    let (code, response) = get_one_task(3, &db, &user(1)).unwrap();
    assert_eq!(code, StatusCode::Success);
    assert_eq!(response.id, 3);
    assert_eq!(response.title, "three");
    assert_eq!(response.priority, Some("B".to_string()));
    assert_eq!(response.description, Some("details".to_string()));
    assert_eq!(response.completed_at, None);
    assert_eq!(response.user_id, Some(1));
    assert_eq!(response.deleted_at, None);
    let error = get_one_task(3, &db, &user(2)).err().unwrap();
    assert_eq!(error.status(), 404);
}

#[test]
fn reading_all_tasks() {
    let mut db = store_with_three();
    let (code, response) = get_all_tasks(&db, &user(1)).unwrap();
    assert_eq!(code.as_u16(), 200);
    let ids: Vec<i32> = response.data.iter().map(|t| t.id).collect();
    assert_eq!(ids, vec![1, 3]);
    delete_task_at(&mut db, 3, &user(1), 9).unwrap();
    let (_, response) = get_all_tasks(&db, &user(1)).unwrap();
    assert_eq!(response.data.len(), 1);
    assert_eq!(response.data[0].title, "one");
    let (_, nothing) = get_all_tasks(&db, &user(5)).unwrap();
    assert!(nothing.data.is_empty());
}

#[test]
fn saving_with_an_id_replaces_that_task() {
    let mut db = store_with_three();
    let mut active = ActiveTask::of(find_task_by_id(&db, 2, 2).unwrap());
    active.title = "two, revised".to_string();
    active.completed_at = Some("2023-05-01 10:00:00 +00:00".to_string());
    let saved = save_active_task(&mut db, active).unwrap();
    assert_eq!(saved.id, 2);
    assert_eq!(db.len(), 3);
    let stored = find_task_by_id(&db, 2, 2).unwrap();
    assert_eq!(stored.title, "two, revised");
    assert_eq!(stored.completed_at, Some("2023-05-01 10:00:00 +00:00".to_string()));
    assert_eq!(find_task_by_id(&db, 1, 1).unwrap().title, "one");
}

#[test]
fn saving_with_an_unknown_id_fails() {
    let mut db = store_with_three();
    let stray = ActiveTask {
        id: Some(40),
        priority: None,
        title: "stray".to_string(),
        completed_at: None,
        description: None,
        deleted_at: None,
        user_id: Some(1),
    };
    let error = save_active_task(&mut db, stray).err().unwrap();
    assert_eq!(error.status(), 500);
    assert_eq!(error.message, "something went wrong");
    assert_eq!(db.len(), 3);
}

#[test]
fn task_ids_are_handed_out_in_order_and_not_spent_on_failures() {
    let mut db = TaskStore::new();
    let first =
        web_app::task_queries::create_task(request(None, Some("a")), &user(1), &mut db).unwrap();
    assert_eq!(first.id, 1);
    assert!(web_app::task_queries::create_task(request(None, None), &user(1), &mut db).is_err());
    delete_task_at(&mut db, 1, &user(1), 7).unwrap();
    assert!(delete_task_at(&mut db, 1, &user(1), 8).is_err());
    let (_, second) =
        web_app::create_task::create_task(&user(2), &mut db, request(None, Some("b"))).unwrap();
    assert_eq!(second.id, 2);
}

fn task(id: i32, owner: i32, deleted_at: Option<i64>) -> Task {
    Task {
        id,
        priority: None,
        title: format!("task {}", id),
        completed_at: None,
        description: None,
        deleted_at,
        user_id: Some(owner),
    }
}

#[test]
fn select_task_hands_out_only_the_owners_live_task() {
    assert_eq!(select_task(Some(task(3, 1, None)), 3, 1).ok().unwrap().title, "task 3");
    for refused in [
        select_task(None, 3, 1),
        select_task(Some(task(3, 2, None)), 3, 1),
        select_task(Some(task(3, 1, Some(9))), 3, 1),
        select_task(Some(task(4, 1, None)), 3, 1),
    ] {
        let error = refused.err().unwrap();
        assert_eq!(error.status(), 404);
        assert_eq!(error.message, "not found");
    }
}

#[test]
fn select_listed_filters_in_order() {
    let rows = vec![task(1, 1, None), task(2, 2, None), task(3, 1, Some(5)), task(4, 1, None)];
    let ids = |tasks: Vec<Task>| tasks.into_iter().map(|t| t.id).collect::<Vec<i32>>();
    assert_eq!(ids(select_listed(&rows, 1, false)), vec![1, 4]);
    assert_eq!(ids(select_listed(&rows, 1, true)), vec![1, 3, 4]);
    assert_eq!(ids(select_listed(&rows, 2, false)), vec![2]);
    assert!(select_listed(&rows, 3, true).is_empty());
    assert!(select_listed(&Vec::new(), 1, true).is_empty());
}

#[test]
fn answers_carry_their_status() {
    let (code, shown) = created(&task(3, 1, None));
    assert_eq!(code.as_u16(), 201);
    assert_eq!(shown.id, 3);
    assert_eq!(shown.title, "task 3");
    let (code, shown) = task_answer(&task(3, 1, Some(2)));
    assert_eq!(code.as_u16(), 200);
    assert_eq!(shown.deleted_at, Some(2));
    let (code, shown) = tasks_answer(&vec![task(5, 1, None), task(2, 1, None)]);
    assert_eq!(code.as_u16(), 200);
    assert_eq!(shown.data.iter().map(|t| t.id).collect::<Vec<i32>>(), vec![5, 2]);
}
