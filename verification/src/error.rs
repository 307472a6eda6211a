//! The single failure kind that callers of the service ever see.

use crate::reply::{failed, Body, Reply, INTERNAL_SERVER_ERROR};
use surrealdb::Error as StoreFailure;
use vstd::prelude::*;

verus! {

/// `surrealdb::Error`, the failure that the store's client reports.
///
/// It is declared so that it can be handed over and dropped. Nothing is read
/// from it and nothing is claimed of what it holds.
#[verifier::external_type_specification]
#[verifier::external_body]
pub struct ExStoreFailure(StoreFailure);

/// What went wrong, as far as a caller is told.
///
/// Connection faults, rejected records and malformed statements all end up
/// as `Db`: the cause stays with the operator.
#[derive(Clone, Copy, Debug, PartialEq, Eq, Structural)]
pub enum Error {
    /// The store failed to carry out a statement.
    Db,
}

/// How the error reads in the operator's log.
pub open spec fn description_text() -> Seq<char> {
    "database error"@
}

impl Error {
    /// Names the error for the operator.
    pub fn description(&self) -> (text: String)
        ensures
            text@ == description_text(),
    {
        match self {
            Error::Db => "database error".to_owned(),
        }
    }

    /// Turns the error into the reply that the caller gets: a server fault
    /// with a fixed message, which tells nothing of the cause.
    pub fn into_response(self) -> (reply: Reply)
        ensures
            reply@ == failed(),
    {
        match self {
            Error::Db => Reply {
                status: INTERNAL_SERVER_ERROR,
                body: Body::Message("An error has occurred. Please try again later.".to_owned()),
            },
        }
    }
}

impl From<StoreFailure> for Error {
    /// Forgets everything about the store's failure but that it happened.
    fn from(_failure: StoreFailure) -> (translated: Error) {
        Error::Db
    }
}

impl vstd::std_specs::convert::FromSpecImpl<StoreFailure> for Error {
    open spec fn obeys_from_spec() -> bool {
        true
    }

    open spec fn from_spec(_failure: StoreFailure) -> Error {
        Error::Db
    }
}

} // verus!
