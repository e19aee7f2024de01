use std::cmp::Ordering;

use shared::user::User;

#[test]
fn user_accessors_and_text() {
    let user = User::new(7, "bob");
    assert_eq!(user.id(), 7);
    assert_eq!(user.name(), "bob");
    assert_eq!(user.format(), "bob[7]");
    assert_eq!(user.to_string(), "{ ID: { 7 }, Username: { bob } }");
    assert_eq!(User::new(65535, String::from("x")).format(), "x[65535]");
    assert_eq!(User::new(0, "").format(), "[0]");
}

#[test]
fn users_are_equal_by_id() {
    assert!(User::new(1, "alice") == User::new(1, "bob"));
    assert!(User::new(1, "alice") != User::new(2, "alice"));
}

#[test]
fn users_order_by_id_then_name() {
    assert_eq!(User::new(1, "b").partial_cmp(&User::new(2, "a")), Some(Ordering::Less));
    assert_eq!(User::new(3, "a").partial_cmp(&User::new(2, "z")), Some(Ordering::Greater));
    assert_eq!(User::new(1, "ab").partial_cmp(&User::new(1, "b")), Some(Ordering::Less));
    assert_eq!(User::new(1, "ab").partial_cmp(&User::new(1, "a")), Some(Ordering::Greater));
    assert_eq!(User::new(1, "same").partial_cmp(&User::new(1, "same")), Some(Ordering::Equal));
}
