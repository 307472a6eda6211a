use user_service::handler::{create_user, delete_user, get_users};
use user_service::reply::{Body, Reply, INTERNAL_SERVER_ERROR, OK};
use user_service::user::User;

const GENERIC: &str = "An error has occurred. Please try again later.";

fn user(name: &str) -> User {
    User::new(name.to_string())
}

fn broken(detail: &str) -> surrealdb::Error {
    surrealdb::Error::Api(surrealdb::error::Api::Query(detail.to_string()))
}

fn taken() -> surrealdb::Error {
    broken("Database index `usernameIndex` already contains 'alice'")
}

fn unreachable_store() -> surrealdb::Error {
    surrealdb::Error::Api(surrealdb::error::Api::ConnectionUninitialised)
}

fn failure() -> Reply {
    Reply { status: 500, body: Body::Message(GENERIC.to_string()) }
}

#[test]
fn status_codes_are_the_usual_ones() {
    assert_eq!(OK, 200);
    assert_eq!(INTERNAL_SERVER_ERROR, 500);
}

#[test]
fn get_users_hands_the_rows_on() {
    assert_eq!(
        get_users(Ok(vec![user("alice"), user("bob")])),
        Reply { status: 200, body: Body::Users(vec![user("alice"), user("bob")]) }
    );
}

#[test]
fn get_users_keeps_the_order_of_the_store() {
    let reply = get_users(Ok(vec![user("bob"), user("alice"), user("carol")]));
    assert_eq!(reply.body, Body::Users(vec![user("bob"), user("alice"), user("carol")]));
    assert_ne!(reply.body, Body::Users(vec![user("alice"), user("bob"), user("carol")]));
}

#[test]
fn get_users_takes_an_empty_table_for_success() {
    assert_eq!(get_users(Ok(vec![])), Reply { status: 200, body: Body::Users(vec![]) });
}

#[test]
fn get_users_reports_a_failure() {
    assert_eq!(get_users(Err(broken("The table does not exist"))), failure());
}

#[test]
fn list_reflects_what_the_store_holds() {
    let both = get_users(Ok(vec![user("alice"), user("bob")]));
    match &both.body {
        Body::Users(users) => {
            let mut names: Vec<&str> = users.iter().map(|user| user.username()).collect();
            names.sort();
            assert_eq!(names, vec!["alice", "bob"]);
        }
        other => panic!("not a list of users: {:?}", other),
    }
    let one = get_users(Ok(vec![user("bob")]));
    assert_eq!(one, Reply { status: 200, body: Body::Users(vec![user("bob")]) });
}

#[test]
fn create_user_confirms_with_a_fixed_text() {
    let confirmed =
        Reply { status: 200, body: Body::Text("Success creating new user".to_string()) };
    assert_eq!(create_user(Ok(Some(user("alice")))), confirmed);
    assert_eq!(create_user(Ok(None)), confirmed);
}

#[test]
fn create_user_does_not_echo_the_record() {
    match create_user(Ok(Some(user("alice")))).body {
        Body::Text(text) => assert!(!text.contains("alice")),
        other => panic!("not a text: {:?}", other),
    }
}

#[test]
fn create_user_reports_a_failure() {
    assert_eq!(create_user(Err(taken())), failure());
}

#[test]
fn delete_user_confirms_with_a_fixed_text() {
    assert_eq!(
        delete_user(Ok(())),
        Reply { status: 200, body: Body::Text("Success deleting user".to_string()) }
    );
}

#[test]
fn delete_user_confirms_every_time() {
    let first = delete_user(Ok(()));
    let second = delete_user(Ok(()));
    assert_eq!(first.status, 200);
    assert_eq!(first, second);
}

#[test]
fn delete_user_reports_a_failure() {
    assert_eq!(delete_user(Err(unreachable_store())), failure());
}

#[test]
fn every_failure_reads_the_same() {
    let listed = get_users(Err(broken("The table does not exist")));
    let created = create_user(Err(taken()));
    let deleted = delete_user(Err(unreachable_store()));
    assert_eq!(listed, created);
    assert_eq!(created, deleted);
    assert_eq!(listed.status, 500);
    assert_eq!(listed.body, Body::Message(GENERIC.to_string()));
}
