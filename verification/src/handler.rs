//! The request handlers: from what the store did to what the caller reads.
//!
//! Each handler is given the outcome of the one statement that its operation
//! submitted, as the store's client reported it, and settles the reply. A
//! handler never looks into a failure: it has the failure translated, and all
//! of them earn the same reply.

use crate::error::Error;
use crate::reply::{
    created, deleted, failed, failure_message, listed, Body, BodyView, Reply, ReplyView,
    INTERNAL_SERVER_ERROR, OK,
};
use crate::user::User;
use surrealdb::Error as StoreFailure;
use vstd::prelude::*;
use vstd::std_specs::convert::FromSpec;

verus! {

/// The reply to a request for the list of users, by whether the store
/// delivered rows.
pub open spec fn get_users_reply(rows: Option<Seq<Seq<char>>>) -> ReplyView {
    match rows {
        Some(usernames) => listed(usernames),
        None => failed(),
    }
}

/// The reply to a request to create a user, by whether the store took the
/// record.
pub open spec fn create_user_reply(succeeded: bool) -> ReplyView {
    if succeeded {
        created()
    } else {
        failed()
    }
}

/// The reply to a request to delete a user, by whether the store carried the
/// deletion out.
pub open spec fn delete_user_reply(succeeded: bool) -> ReplyView {
    if succeeded {
        deleted()
    } else {
        failed()
    }
}

/// Answers a request for the list of users.
///
/// The users go out as the store delivered them, all of them and in the
/// same order, none added; an empty list is a success like any other.
pub fn get_users(outcome: Result<Vec<User>, StoreFailure>) -> (reply: Reply)
    ensures
        reply@ == get_users_reply(
            match outcome {
                Ok(users) => Some(users.deep_view()),
                Err(_) => None,
            },
        ),
{
    match outcome {
        Ok(users) => Reply { status: OK, body: Body::Users(users) },
        Err(failure) => Error::from(failure).into_response(),
    }
}

/// Answers a request to create a user.
///
/// Success is confirmed by a fixed text. The record that the store may have
/// handed back is not echoed.
pub fn create_user(outcome: Result<Option<User>, StoreFailure>) -> (reply: Reply)
    ensures
        reply@ == create_user_reply(outcome is Ok),
{
    match outcome {
        Ok(_) => Reply { status: OK, body: Body::Text("Success creating new user".to_owned()) },
        Err(failure) => Error::from(failure).into_response(),
    }
}

/// Answers a request to delete a user.
///
/// Success is confirmed by a fixed text, whether or not a record went.
pub fn delete_user(outcome: Result<(), StoreFailure>) -> (reply: Reply)
    ensures
        reply@ == delete_user_reply(outcome is Ok),
{
    match outcome {
        Ok(_) => Reply { status: OK, body: Body::Text("Success deleting user".to_owned()) },
        Err(failure) => Error::from(failure).into_response(),
    }
}

/// No reply gives a failure of the store away. Whatever the store's client
/// reported, it becomes the same error, and whichever request met it, the
/// caller reads the same status and the same fixed message.
pub proof fn failures_are_opaque(failure: StoreFailure)
    ensures
        Error::from_spec(failure) == Error::Db,
        get_users_reply(None) == failed(),
        create_user_reply(false) == failed(),
        delete_user_reply(false) == failed(),
        failed().status == INTERNAL_SERVER_ERROR,
        failed().body == BodyView::Message(failure_message()),
{
}

} // verus!
