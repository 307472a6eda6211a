use user_service::user::User;

#[test]
fn user_holds_the_username_as_given() {
    assert_eq!(User::new("alice".to_string()).username(), "alice");
    assert_eq!(User::new(" Alice\t".to_string()).username(), " Alice\t");
    assert_eq!(User::new(String::new()).username(), "");
}

#[test]
fn user_takes_any_length() {
    let long = "x".repeat(100);
    assert_eq!(User::new(long.clone()).username(), long);
}

#[test]
fn into_username_gives_the_username_back() {
    assert_eq!(User::new("bob".to_string()).into_username(), "bob".to_string());
}

#[test]
fn users_are_equal_by_username() {
    assert_eq!(User::new("alice".to_string()), User::new("alice".to_string()));
    assert_ne!(User::new("alice".to_string()), User::new("Alice".to_string()));
    assert_ne!(User::new("alice".to_string()), User::new("alice ".to_string()));
}

#[test]
fn clone_keeps_the_username() {
    let user = User::new("carol".to_string());
    let copy = user.clone();
    assert_eq!(copy, user);
    assert_eq!(copy.username(), "carol");
}
