use web_app::app_error::StatusCode;
use web_app::hash::{
    checked_hash, hash_password, hash_password_with_cost, password_verdict, verify_password,
    HASH_COST,
};
use web_app::validation::length_is_within;

#[test]
fn the_cost_is_fourteen() {
    assert_eq!(HASH_COST, 14);
}

#[test]
fn password_verifies_against_its_own_hash() {
    let hash = hash_password_with_cost("password123", 4).unwrap();
    assert_eq!(verify_password("password123", &hash).unwrap(), true);
}

#[test]
fn another_password_does_not_verify() {
    let hash = hash_password_with_cost("password123", 4).unwrap();
    assert_eq!(verify_password("wrongpass", &hash).unwrap(), false);
    assert_eq!(verify_password("password124", &hash).unwrap(), false);
    assert_eq!(verify_password("", &hash).unwrap(), false);
}

#[test]
fn hash_is_not_the_password_and_carries_its_cost() {
    let hash = hash_password_with_cost("password123", 5).unwrap();
    assert_ne!(hash, "password123");
    assert!(hash.starts_with("$2b$05$"));
    assert_eq!(hash.len(), 60);
}

#[test]
fn two_hashes_of_one_password_differ_and_both_verify() {
    let first = hash_password_with_cost("s3cret-pass", 4).unwrap();
    let second = hash_password_with_cost("s3cret-pass", 4).unwrap();
    assert_ne!(first, second);
    assert!(verify_password("s3cret-pass", &first).unwrap());
    assert!(verify_password("s3cret-pass", &second).unwrap());
}

#[test]
fn hash_password_uses_the_fixed_cost() {
    let hash = hash_password("password123").unwrap();
    assert!(hash.starts_with("$2b$14$"));
    assert!(verify_password("password123", &hash).unwrap());
}

#[test]
fn cost_out_of_range_is_an_internal_error() {
    let low = hash_password_with_cost("password123", 3).err().unwrap();
    assert_eq!(low.code, StatusCode::InternalServerError);
    assert_eq!(low.message, "something went wrong");
    let high = hash_password_with_cost("password123", 32).err().unwrap();
    assert_eq!(high.status(), 500);
}

#[test]
fn unreadable_hash_is_an_internal_error() {
    let error = verify_password("password123", "not a bcrypt hash").err().unwrap();
    assert_eq!(error.code, StatusCode::InternalServerError);
    assert_eq!(error.message, "something went wrong");
    assert!(verify_password("password123", "").is_err());
}

#[test]
fn known_hash_verifies() {
    let hash = "$2y$12$L6Bc/AlTQHyd9liGgGEZyOFLPHNgyxeEPfgYfBCVxJ7JIlwxyVU3u";
    assert_eq!(verify_password("hunter2", hash).unwrap(), true);
    assert_eq!(verify_password("hunter3", hash).unwrap(), false);
}

#[test]
fn password_verdict_passes_the_boolean_on() {
    assert_eq!(password_verdict(Some(true)).unwrap(), true);
    assert_eq!(password_verdict(Some(false)).unwrap(), false);
    let error = password_verdict(None).err().unwrap();
    assert_eq!(error.status(), 500);
    assert_eq!(error.message, "something went wrong");
}

#[test]
fn every_cost_shows_in_two_digits() {
    for (cost, tag) in [(4, "$2b$04$"), (9, "$2b$09$"), (10, "$2b$10$"), (11, "$2b$11$")] {
        let hash = hash_password_with_cost("password123", cost).unwrap();
        assert!(hash.starts_with(tag));
    }
}

#[test]
fn checked_hash_hands_out_only_a_hash_of_the_cost_asked_for() {
    let hash = "$2b$14$L6Bc/AlTQHyd9liGgGEZyOFLPHNgyxeEPfgYfBCVxJ7JIlwxyVU3u";
    assert_eq!(checked_hash(Some(hash.to_string()), 14).ok().unwrap(), hash);
    assert_eq!(checked_hash(Some("$2b$04$rest".to_string()), 4).ok().unwrap(), "$2b$04$rest");
    assert_eq!(checked_hash(Some("$2b$31$".to_string()), 31).ok().unwrap(), "$2b$31$");
    for (given, cost) in [
        (None, 14),
        (Some(hash), 4),
        (Some(hash), 13),
        (Some("$2y$14$L6Bc/AlTQHyd9liGgGEZyOFLPHNgyxeEPfgYfBCVxJ7JIlwxyVU3u"), 14),
        (Some("$2b$14"), 14),
        (Some(""), 14),
        (Some("$2b$03$rest"), 3),
        (Some("$2b$32$rest"), 32),
        (Some("$2b$99$rest"), 99),
        (Some("$2b$140$rest"), 140),
    ] {
        let error = checked_hash(given.map(|h| h.to_string()), cost).err().unwrap();
        assert_eq!(error.status(), 500);
        assert_eq!(error.message, "something went wrong");
    }
}

#[test]
fn lengths_are_counted_in_characters() {
    assert!(length_is_within("12345678", Some(8), None));
    assert!(!length_is_within("1234567", Some(8), None));
    assert!(length_is_within("päss wörd", Some(9), Some(9)));
    assert!(!length_is_within("päss wörd", Some(10), None));
    assert!(length_is_within("", None, None));
    assert!(length_is_within("", Some(0), Some(0)));
    assert!(!length_is_within("", Some(1), Some(1)));
    assert!(length_is_within("A", Some(1), Some(1)));
    assert!(!length_is_within("AB", Some(1), Some(1)));
    assert!(!length_is_within("AB", None, Some(1)));
    assert!(!length_is_within("AB", Some(3), Some(1)));
    assert!(length_is_within("日本", Some(2), Some(2)));
}
