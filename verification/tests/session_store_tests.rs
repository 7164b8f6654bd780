use web_app::app_error::StatusCode;
use web_app::session_store::{select_user, SessionStore, UserKey};
use web_app::user::User;

fn store_with_alice_and_bob() -> SessionStore {
    let mut store = SessionStore::new();
    store.insert("alice".to_string(), "hash-a".to_string(), Some("t-alice".to_string())).unwrap();
    store.insert("bob".to_string(), "hash-b".to_string(), None).unwrap();
    store
}

#[test]
fn new_store_is_empty() {
    let store = SessionStore::new();
    assert_eq!(store.len(), 0);
    assert!(store.find_by_current_token("anything").is_none());
    assert!(store.all().is_empty());
}

#[test]
fn insert_gives_fresh_ids_and_live_users() {
    let mut store = SessionStore::new();
    let alice =
        store.insert("alice".to_string(), "hash-a".to_string(), Some("t1".to_string())).unwrap();
    let bob = store.insert("bob".to_string(), "hash-b".to_string(), None).unwrap();
    assert_eq!(alice.id, 1);
    assert_eq!(bob.id, 2);
    assert_eq!(alice.username, "alice");
    assert_eq!(alice.password, "hash-a");
    assert_eq!(alice.token, Some("t1".to_string()));
    assert_eq!(alice.deleted_at, None);
    assert_eq!(bob.token, None);
    assert_eq!(store.len(), 2);
}

#[test]
fn insert_refuses_a_username_in_use() {
    let mut store = store_with_alice_and_bob();
    let error =
        store.insert("alice".to_string(), "other".to_string(), Some("t9".to_string())).err().unwrap();
    assert_eq!(error.code, StatusCode::BadRequest);
    assert_eq!(error.message, "username already taken");
    assert_eq!(store.len(), 2);
    assert!(store.find_by_current_token("t9").is_none());
    assert_eq!(store.find_by_username("alice").unwrap().password, "hash-a");
}

#[test]
fn find_by_current_token_matches_exactly() {
    let store = store_with_alice_and_bob();
    assert_eq!(store.find_by_current_token("t-alice").unwrap().username, "alice");
    assert!(store.find_by_current_token("t-alic").is_none());
    assert!(store.find_by_current_token("t-alice ").is_none());
    assert!(store.find_by_current_token("T-ALICE").is_none());
    assert!(store.find_by_current_token("").is_none());
}

#[test]
fn replacing_a_token_revokes_the_one_before() {
    let mut store = store_with_alice_and_bob();
    let updated = store.replace_token(1, Some("t2".to_string())).unwrap();
    assert_eq!(updated.id, 1);
    assert_eq!(updated.username, "alice");
    assert_eq!(updated.token, Some("t2".to_string()));
    assert!(store.find_by_current_token("t-alice").is_none());
    assert_eq!(store.find_by_current_token("t2").unwrap().id, 1);
}

#[test]
fn clearing_a_token_ends_the_session() {
    let mut store = store_with_alice_and_bob();
    let updated = store.replace_token(1, None).unwrap();
    assert_eq!(updated.token, None);
    assert!(store.find_by_current_token("t-alice").is_none());
    assert_eq!(store.find_by_id(1).unwrap().token, None);
}

#[test]
fn replacing_leaves_other_users_alone() {
    let mut store = store_with_alice_and_bob();
    store.replace_token(2, Some("t-bob".to_string())).unwrap();
    assert_eq!(store.find_by_current_token("t-alice").unwrap().id, 1);
    assert_eq!(store.find_by_current_token("t-bob").unwrap().id, 2);
    store.replace_token(2, None).unwrap();
    assert_eq!(store.find_by_current_token("t-alice").unwrap().id, 1);
}

#[test]
fn replacing_the_token_of_an_unknown_user_fails_and_changes_nothing() {
    let mut store = store_with_alice_and_bob();
    let error = store.replace_token(7, Some("t7".to_string())).err().unwrap();
    assert_eq!(error.code, StatusCode::InternalServerError);
    assert_eq!(error.message, "something went wrong");
    assert!(store.find_by_current_token("t7").is_none());
    assert_eq!(store.find_by_current_token("t-alice").unwrap().id, 1);
}

#[test]
fn find_goes_by_the_key() {
    let store = store_with_alice_and_bob();
    assert_eq!(store.find(&UserKey::Id(2)).unwrap().username, "bob");
    assert_eq!(store.find(&UserKey::LiveId(2)).unwrap().username, "bob");
    assert_eq!(store.find(&UserKey::Username("bob".to_string())).unwrap().id, 2);
    assert_eq!(store.find(&UserKey::LiveUsername("alice".to_string())).unwrap().id, 1);
    assert_eq!(store.find(&UserKey::Session("t-alice".to_string())).unwrap().id, 1);
    assert!(store.find(&UserKey::Id(3)).is_none());
    assert!(store.find(&UserKey::Username("carol".to_string())).is_none());
}

#[test]
fn all_lists_users_in_order() {
    let store = store_with_alice_and_bob();
    let names: Vec<String> = store.all().into_iter().map(|u| u.username).collect();
    assert_eq!(names, vec!["alice".to_string(), "bob".to_string()]);
}

#[test]
fn ids_are_handed_out_in_order_and_not_spent_on_failures() {
    let mut store = SessionStore::new();
    assert_eq!(store.insert("alice".to_string(), "h".to_string(), None).unwrap().id, 1);
    assert!(store.insert("alice".to_string(), "h".to_string(), None).is_err());
    assert!(store.replace_token(1, Some("t".to_string())).is_ok());
    assert!(store.replace_token(9, None).is_err());
    assert_eq!(store.insert("bob".to_string(), "h".to_string(), None).unwrap().id, 2);
    let mut bob = store.find_by_id(2).unwrap();
    bob.deleted_at = Some(5);
    assert!(store.update(bob).is_ok());
    assert_eq!(store.insert("carol".to_string(), "h".to_string(), None).unwrap().id, 3);
}

#[test]
fn select_user_is_the_lookup_on_rows_read_elsewhere() {
    let row = |id: i32, name: &str, token: Option<&str>, deleted_at: Option<i64>| User {
        id,
        username: name.to_string(),
        password: "hash".to_string(),
        token: token.map(|t| t.to_string()),
        deleted_at,
    };
    let rows = vec![
        row(1, "gone", Some("t"), Some(5)),
        row(2, "alice", Some("t"), None),
        row(3, "bob", Some("t"), None),
        row(4, "carol", None, None),
    ];
    let session = UserKey::Session("t".to_string());
    assert_eq!(select_user(&rows, &session).unwrap().id, 2);
    assert!(select_user(&rows, &UserKey::Session("u".to_string())).is_none());
    assert!(select_user(&rows, &UserKey::LiveUsername("gone".to_string())).is_none());
    assert_eq!(select_user(&rows, &UserKey::Username("gone".to_string())).unwrap().id, 1);
    assert_eq!(select_user(&rows, &UserKey::LiveId(4)).unwrap().username, "carol");
    assert!(select_user(&Vec::new(), &session).is_none());
}
