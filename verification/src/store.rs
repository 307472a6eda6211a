//! The record store: what the service submits to the database.
//!
//! Each operation on user records is one statement, a query or the creation
//! of a record. A statement is plain data; running it against the guarded
//! connection is the caller's part.
//! Usernames go into a statement exactly as they came, either as the content
//! of the record to create or as a bound parameter, never spliced into the
//! text of a query.

use crate::user::User;
use vstd::prelude::*;

verus! {

/// A named parameter of a query and the value bound to it.
#[derive(Debug, PartialEq, Eq)]
pub struct Binding {
    pub name: String,
    pub value: String,
}

/// A statement that runs the query `text` with `bindings` for its named
/// parameters.
#[derive(Debug, PartialEq, Eq)]
pub struct Query {
    pub text: String,
    pub bindings: Vec<Binding>,
}

/// A statement that creates a record with this content in `table`.
#[derive(Debug, PartialEq, Eq)]
pub struct Creation {
    pub table: String,
    pub content: User,
}

/// The mathematical content of a [`Binding`].
pub struct BindingView {
    pub name: Seq<char>,
    pub value: Seq<char>,
}

/// The mathematical content of a statement of either kind, a [`Query`] or a
/// [`Creation`].
pub enum StatementView {
    Query { text: Seq<char>, bindings: Seq<BindingView> },
    Create { table: Seq<char>, content: Seq<char> },
}

impl View for Binding {
    type V = BindingView;

    open spec fn view(&self) -> BindingView {
        BindingView { name: self.name@, value: self.value@ }
    }
}

impl DeepView for Binding {
    type V = BindingView;

    open spec fn deep_view(&self) -> BindingView {
        self@
    }
}

impl View for Query {
    type V = StatementView;

    open spec fn view(&self) -> StatementView {
        StatementView::Query { text: self.text@, bindings: self.bindings.deep_view() }
    }
}

impl DeepView for Query {
    type V = StatementView;

    open spec fn deep_view(&self) -> StatementView {
        self@
    }
}

impl View for Creation {
    type V = StatementView;

    open spec fn view(&self) -> StatementView {
        StatementView::Create { table: self.table@, content: self.content@ }
    }
}

/// The table that holds the users.
pub open spec fn users_table() -> Seq<char> {
    "users"@
}

/// The name of the parameter that carries a username into a query.
pub open spec fn username_parameter() -> Seq<char> {
    "username"@
}

/// The query that reads every user.
pub open spec fn select_text() -> Seq<char> {
    "SELECT * FROM users"@
}

/// The query that deletes the users whose username is the bound one.
pub open spec fn delete_text() -> Seq<char> {
    "DELETE FROM users WHERE username = $username"@
}

/// A query without parameters.
pub open spec fn plain_query(text: Seq<char>) -> StatementView {
    StatementView::Query { text, bindings: Seq::empty() }
}

/// The statement that reads every user.
pub open spec fn list_statement() -> StatementView {
    plain_query(select_text())
}

/// The statement that creates the user `username`.
pub open spec fn create_statement(username: Seq<char>) -> StatementView {
    StatementView::Create { table: users_table(), content: username }
}

/// The statement that deletes the user `username`: always the same text, with
/// the username as the value of its one parameter.
pub open spec fn delete_statement(username: Seq<char>) -> StatementView {
    StatementView::Query {
        text: delete_text(),
        bindings: seq![BindingView { name: username_parameter(), value: username }],
    }
}

/// The declaration of the users table, which takes no field that is not
/// declared.
pub open spec fn table_declaration() -> Seq<char> {
    "DEFINE TABLE IF NOT EXISTS users SCHEMAFULL"@
}

/// The declaration of the username field: a string of fewer than 14
/// characters.
pub open spec fn field_declaration() -> Seq<char> {
    "DEFINE FIELD IF NOT EXISTS username ON TABLE users TYPE string \
     ASSERT string::len($value) < 14"@
}

/// The declaration of the index that keeps usernames unique.
pub open spec fn index_declaration() -> Seq<char> {
    "DEFINE INDEX IF NOT EXISTS usernameIndex ON TABLE users COLUMNS username UNIQUE"@
}

/// The schema: table, field and index, in the order in which they are
/// declared.
pub open spec fn schema_statements() -> Seq<StatementView> {
    seq![
        plain_query(table_declaration()),
        plain_query(field_declaration()),
        plain_query(index_declaration()),
    ]
}

/// Builds the statement that reads every user.
pub fn list() -> (statement: Query)
    ensures
        statement@ == list_statement(),
{
    plain("SELECT * FROM users")
}

/// Builds the statement that creates the user `username`.
///
/// The username is taken as it is, whatever its length and whether or not it
/// is already taken: the store decides.
pub fn create(username: String) -> (statement: Creation)
    ensures
        statement@ == create_statement(username@),
{
    Creation { table: "users".to_owned(), content: User::new(username) }
}

/// Builds the statement that deletes the user `username`.
///
/// The text of the query does not depend on the username, which travels as a
/// bound value.
pub fn delete(username: String) -> (statement: Query)
    ensures
        statement@ == delete_statement(username@),
{
    let binding = Binding { name: "username".to_owned(), value: username };
    let bindings: Vec<Binding> = vec![binding];
    assert(bindings.deep_view() =~= seq![binding@]);
    Query { text: "DELETE FROM users WHERE username = $username".to_owned(), bindings }
}

/// Builds the statements that declare the schema, to be run once, in order,
/// before the first request is served.
///
/// Each declaration is guarded by `IF NOT EXISTS`, so running them again on
/// a store that has them changes nothing.
pub fn define_schema() -> (statements: Vec<Query>)
    ensures
        statements.deep_view() == schema_statements(),
{
    let table = plain("DEFINE TABLE IF NOT EXISTS users SCHEMAFULL");
    let field = plain(
        "DEFINE FIELD IF NOT EXISTS username ON TABLE users TYPE string \
         ASSERT string::len($value) < 14",
    );
    let index = plain(
        "DEFINE INDEX IF NOT EXISTS usernameIndex ON TABLE users COLUMNS username UNIQUE",
    );
    let statements: Vec<Query> = vec![table, field, index];
    assert(statements.deep_view() =~= schema_statements());
    statements
}

/// Builds a query without parameters.
fn plain(text: &str) -> (statement: Query)
    ensures
        statement@ == plain_query(text@),
{
    let bindings: Vec<Binding> = Vec::new();
    assert(bindings.deep_view() =~= Seq::<BindingView>::empty());
    Query { text: text.to_owned(), bindings }
}

} // verus!
