use web_app::app_error::StatusCode;
use web_app::hash::verify_password;
use web_app::partial_update_user::{apply_update, partial_update_user, update_user, RequestUser};
use web_app::session_store::SessionStore;
use web_app::user::User;

fn store() -> SessionStore {
    let mut store = SessionStore::new();
    store
        .insert("alice@example.com".to_string(), "hash-a".to_string(), Some("t-a".to_string()))
        .unwrap();
    store.insert("bob@example.com".to_string(), "hash-b".to_string(), Some("t-b".to_string())).unwrap();
    store
}

fn nothing() -> RequestUser {
    RequestUser { username: None, password: None, deleted_at: None }
}

#[test]
fn validation_only_looks_at_what_is_given() {
    assert!(nothing().validate().is_ok());
    let bad_name = RequestUser { username: Some("alice".to_string()), ..nothing() };
    assert_eq!(bad_name.validate().err().unwrap().message, "must be a valid email");
    let short = RequestUser { password: Some("1234567".to_string()), ..nothing() };
    let error = short.validate().err().unwrap();
    assert_eq!(error.status(), 400);
    assert_eq!(error.message, "must have at least 8 characters");
    let fine = RequestUser {
        username: Some("carol@example.com".to_string()),
        password: Some("12345678".to_string()),
        deleted_at: Some(None),
    };
    assert!(fine.validate().is_ok());
}

#[test]
fn apply_update_changes_only_what_is_given() {
    let current = || User {
        id: 4,
        username: "alice@example.com".to_string(),
        password: "hash-a".to_string(),
        token: Some("t-a".to_string()),
        deleted_at: Some(5),
    };
    let same = apply_update(current(), None, None, None);
    assert_eq!(same.username, "alice@example.com");
    assert_eq!(same.password, "hash-a");
    assert_eq!(same.deleted_at, Some(5));
    let changed = apply_update(
        current(),
        Some("al@example.com".to_string()),
        Some("hash-2".to_string()),
        Some(None),
    );
    assert_eq!(changed.id, 4);
    assert_eq!(changed.username, "al@example.com");
    assert_eq!(changed.password, "hash-2");
    assert_eq!(changed.token, Some("t-a".to_string()));
    assert_eq!(changed.deleted_at, None);
    assert_eq!(apply_update(current(), None, None, Some(Some(9))).deleted_at, Some(9));
}

#[test]
fn username_can_be_changed() {
    let mut store = store();
    let request = RequestUser { username: Some("al@example.com".to_string()), ..nothing() };
    partial_update_user(&mut store, 1, request).unwrap();
    let user = store.find_by_id(1).unwrap();
    assert_eq!(user.username, "al@example.com");
    assert_eq!(user.password, "hash-a");
    assert_eq!(user.token, Some("t-a".to_string()));
    assert_eq!(store.find_by_id(2).unwrap().username, "bob@example.com");
}

#[test]
fn new_password_is_stored_hashed() {
    let mut store = store();
    let request = RequestUser { password: Some("new-password".to_string()), ..nothing() };
    partial_update_user(&mut store, 2, request).unwrap();
    let user = store.find_by_id(2).unwrap();
    assert_ne!(user.password, "new-password");
    assert_ne!(user.password, "hash-b");
    assert!(verify_password("new-password", &user.password).unwrap());
}

#[test]
fn soft_deleted_user_loses_the_session_and_can_be_restored() {
    let mut store = store();
    update_user(&mut store, 1, None, None, Some(Some(1_700_000_000))).unwrap();
    assert!(store.find_by_current_token("t-a").is_none());
    assert!(store.find_by_username("alice@example.com").is_none());
    assert_eq!(store.find_by_id(1).unwrap().deleted_at, Some(1_700_000_000));
    assert_eq!(store.find_by_current_token("t-b").unwrap().id, 2);
    let restore = RequestUser { deleted_at: Some(None), ..nothing() };
    partial_update_user(&mut store, 1, restore).unwrap();
    assert_eq!(store.find_by_current_token("t-a").unwrap().id, 1);
}

#[test]
fn unknown_user_is_not_found() {
    let mut store = store();
    assert_eq!(partial_update_user(&mut store, 9, nothing()).err().unwrap(), StatusCode::NotFound);
    assert_eq!(update_user(&mut store, 9, None, None, None).err().unwrap().as_u16(), 404);
}

#[test]
fn invalid_fields_are_a_bad_request() {
    let mut store = store();
    let request = RequestUser { username: Some("not-an-email".to_string()), ..nothing() };
    assert_eq!(partial_update_user(&mut store, 1, request).err().unwrap(), StatusCode::BadRequest);
    assert_eq!(store.find_by_id(1).unwrap().username, "alice@example.com");
}

#[test]
fn a_username_in_use_is_a_store_fault() {
    let mut store = store();
    let request = RequestUser { username: Some("bob@example.com".to_string()), ..nothing() };
    assert_eq!(
        partial_update_user(&mut store, 1, request).err().unwrap(),
        StatusCode::InternalServerError
    );
    assert_eq!(store.find_by_id(1).unwrap().username, "alice@example.com");
    let keep = RequestUser { username: Some("alice@example.com".to_string()), ..nothing() };
    assert!(partial_update_user(&mut store, 1, keep).is_ok());
}

#[test]
fn store_update_replaces_the_row() {
    let mut store = store();
    let mut user = store.find_by_id(2).unwrap();
    user.token = None;
    user.password = "hash-c".to_string();
    let stored = store.update(user).unwrap();
    assert_eq!(stored.id, 2);
    assert_eq!(store.find_by_id(2).unwrap().password, "hash-c");
    assert!(store.find_by_current_token("t-b").is_none());
    let mut stranger = store.find_by_id(2).unwrap();
    stranger.id = 50;
    stranger.username = "eve@example.com".to_string();
    assert_eq!(store.update(stranger).err().unwrap().status(), 500);
    assert_eq!(store.len(), 2);
}

#[test]
fn unknown_user_is_not_found_before_anything_is_hashed() {
    let mut store = store();
    let started = std::time::Instant::now();
    let request = RequestUser { password: Some("new-password".to_string()), ..nothing() };
    assert_eq!(partial_update_user(&mut store, 9, request).err().unwrap(), StatusCode::NotFound);
    assert!(started.elapsed().as_millis() < 1000);
    assert_eq!(store.len(), 2);
}

#[test]
fn invalid_fields_come_before_a_missing_user() {
    let mut store = store();
    let request = RequestUser { password: Some("short".to_string()), ..nothing() };
    assert_eq!(partial_update_user(&mut store, 9, request).err().unwrap(), StatusCode::BadRequest);
}

#[test]
fn stored_password_is_hashed_at_the_fixed_cost() {
    let mut store = store();
    let request = RequestUser { password: Some("new-password".to_string()), ..nothing() };
    partial_update_user(&mut store, 1, request).unwrap();
    assert!(store.find_by_id(1).unwrap().password.starts_with("$2b$14$"));
}
