//! What the service answers, as plain data.
//!
//! A reply is a status code and a body. How the body is put on the wire is
//! not decided here; the body only says which of the three shapes it has.

use crate::user::User;
use vstd::prelude::*;

verus! {

/// The status of a reply that reports success.
pub const OK: u16 = 200;

/// The status of a reply that reports a fault on the service's side.
pub const INTERNAL_SERVER_ERROR: u16 = 500;

/// The body of a reply.
#[derive(Debug, PartialEq, Eq)]
pub enum Body {
    /// The users found, to be sent as a JSON array of objects with one
    /// field, `username`, in this order.
    Users(Vec<User>),
    /// A line of plain text.
    Text(String),
    /// A message, to be sent as a JSON string.
    Message(String),
}

/// A reply to one request.
#[derive(Debug, PartialEq, Eq)]
pub struct Reply {
    pub status: u16,
    pub body: Body,
}

/// The mathematical content of a [`Body`].
pub enum BodyView {
    Users(Seq<Seq<char>>),
    Text(Seq<char>),
    Message(Seq<char>),
}

/// The mathematical content of a [`Reply`].
pub struct ReplyView {
    pub status: u16,
    pub body: BodyView,
}

impl View for Body {
    type V = BodyView;

    open spec fn view(&self) -> BodyView {
        match self {
            Body::Users(users) => BodyView::Users(users.deep_view()),
            Body::Text(text) => BodyView::Text(text@),
            Body::Message(message) => BodyView::Message(message@),
        }
    }
}

impl View for Reply {
    type V = ReplyView;

    open spec fn view(&self) -> ReplyView {
        ReplyView { status: self.status, body: self.body@ }
    }
}

/// The text that confirms a created user.
pub open spec fn created_text() -> Seq<char> {
    "Success creating new user"@
}

/// The text that confirms a deleted user.
pub open spec fn deleted_text() -> Seq<char> {
    "Success deleting user"@
}

/// The only words a caller reads about a failure, whatever the failure was.
pub open spec fn failure_message() -> Seq<char> {
    "An error has occurred. Please try again later."@
}

/// The reply that lists these usernames, in this order.
pub open spec fn listed(usernames: Seq<Seq<char>>) -> ReplyView {
    ReplyView { status: OK, body: BodyView::Users(usernames) }
}

/// The reply that confirms a created user.
pub open spec fn created() -> ReplyView {
    ReplyView { status: OK, body: BodyView::Text(created_text()) }
}

/// The reply that confirms a deleted user.
pub open spec fn deleted() -> ReplyView {
    ReplyView { status: OK, body: BodyView::Text(deleted_text()) }
}

/// The reply to any request that the store failed.
pub open spec fn failed() -> ReplyView {
    ReplyView { status: INTERNAL_SERVER_ERROR, body: BodyView::Message(failure_message()) }
}

} // verus!
