//! The users on record, as the schema lets a store keep them, and what the
//! service owes its callers on such a store.
//!
//! Nothing in this module runs. It describes the store that the service is
//! written against: one on which the schema has been declared and which is
//! up, so that a statement fails only where the schema says so. The records
//! are modelled by their usernames, as a multiset, since nothing in a
//! multiset forbids a username to occur twice. That none does is a rule of the
//! schema, shown below to survive every statement.
//!
//! The theorems at the end say what a caller sees when the statements of
//! [`crate::store`] meet that store and the handlers of [`crate::handler`]
//! answer. In them "the store" is the store as modelled here. Whether a given
//! store behaves as the model says is not proved.

use crate::handler::{create_user_reply, delete_user_reply, get_users_reply};
use crate::reply::{created, deleted, failed, listed};
use crate::store::{
    create_statement, delete_statement, delete_text, list_statement, select_text,
    username_parameter, users_table, StatementView,
};
use vstd::multiset::Multiset;
use vstd::prelude::*;

verus! {

/// A username may be stored only if it has fewer characters than this.
pub const USERNAME_LIMIT: usize = 14;

/// What a statement asks the store to do.
pub enum Operation {
    /// Deliver every user.
    List,
    /// Keep a new user with this username.
    Create { username: Seq<char> },
    /// Drop the users with this username.
    Delete { username: Seq<char> },
}

/// Reads a statement as the store does: `None` for one that is none of the
/// record store's three, of which this model knows nothing.
pub open spec fn operation_of(statement: StatementView) -> Option<Operation> {
    match statement {
        StatementView::Create { table, content } => {
            if table == users_table() {
                Some(Operation::Create { username: content })
            } else {
                None
            }
        },
        StatementView::Query { text, bindings } => {
            if text == select_text() && bindings.len() == 0 {
                Some(Operation::List)
            } else if text == delete_text() && bindings.len() == 1 && bindings[0].name
                == username_parameter() {
                Some(Operation::Delete { username: bindings[0].value })
            } else {
                None
            }
        },
    }
}

/// Whether the schema lets a username be stored at all.
pub open spec fn admissible(username: Seq<char>) -> bool {
    username.len() < USERNAME_LIMIT
}

/// Whether `records` obey the schema: every username is admissible and
/// occurs once.
pub open spec fn consistent(records: Multiset<Seq<char>>) -> bool {
    forall|username: Seq<char>| #[trigger]
        records.count(username) > 0 ==> admissible(username) && records.count(username) == 1
}

/// Whether a store that holds `records` carries `operation` out.
///
/// Reading and deleting never fail. A user is created unless the username is
/// too long or taken.
pub open spec fn accepts(records: Multiset<Seq<char>>, operation: Operation) -> bool {
    match operation {
        Operation::List => true,
        Operation::Create { username } => admissible(username) && records.count(username) == 0,
        Operation::Delete { username } => true,
    }
}

/// The records that a store which held `records` holds once it has dealt
/// with `operation`.
///
/// A refused creation leaves them as they were. A deletion drops every record
/// with the username, and there may be none.
pub open spec fn apply(records: Multiset<Seq<char>>, operation: Operation) -> Multiset<Seq<char>> {
    match operation {
        Operation::List => records,
        Operation::Create { username } => {
            if accepts(records, operation) {
                records.insert(username)
            } else {
                records
            }
        },
        Operation::Delete { username } => records.update(username, 0),
    }
}

/// Whether a store that holds `records` carries `statement` out.
pub open spec fn succeeds(records: Multiset<Seq<char>>, statement: StatementView) -> bool
    recommends
        operation_of(statement) is Some,
{
    match operation_of(statement) {
        Some(operation) => accepts(records, operation),
        None => arbitrary(),
    }
}

/// The records that a store which held `records` holds once it has dealt
/// with `statement`.
pub open spec fn records_after(
    records: Multiset<Seq<char>>,
    statement: StatementView,
) -> Multiset<Seq<char>>
    recommends
        operation_of(statement) is Some,
{
    match operation_of(statement) {
        Some(operation) => apply(records, operation),
        None => arbitrary(),
    }
}

/// Whether `rows` is an answer to a request for every user that a store
/// which holds `records` may give: each record once, in an order of the
/// store's choosing.
pub open spec fn delivers(records: Multiset<Seq<char>>, rows: Seq<Seq<char>>) -> bool {
    rows.to_multiset() == records
}

/// The records that a store which held `records` holds once it has been
/// asked, one request after the other, to create a user for each of
/// `usernames`.
pub open spec fn records_after_creating(
    records: Multiset<Seq<char>>,
    usernames: Seq<Seq<char>>,
) -> Multiset<Seq<char>>
    decreases usernames.len(),
{
    if usernames.len() == 0 {
        records
    } else {
        records_after(
            records_after_creating(records, usernames.drop_last()),
            create_statement(usernames.last()),
        )
    }
}

/// The store reads each statement of the record store as the operation it
/// was built for, with the username untouched.
pub proof fn statements_are_understood(username: Seq<char>)
    ensures
        operation_of(list_statement()) == Some(Operation::List),
        operation_of(create_statement(username)) == Some(Operation::Create { username }),
        operation_of(delete_statement(username)) == Some(Operation::Delete { username }),
{
}

/// A store that holds nothing obeys the schema.
pub proof fn nothing_obeys_the_schema()
    ensures
        consistent(Multiset::empty()),
{
}

/// Whatever the store is asked to do, records that obeyed the schema before
/// obey it afterwards: no username is ever on record twice, none is too
/// long.
pub proof fn schema_is_kept(records: Multiset<Seq<char>>, operation: Operation)
    requires
        consistent(records),
    ensures
        consistent(apply(records, operation)),
{
    let after = apply(records, operation);
    assert forall|username: Seq<char>| #[trigger] after.count(username) > 0 implies admissible(
        username,
    ) && after.count(username) == 1 by {
        assert(records.count(username) > 0 ==> records.count(username) == 1);
        match operation {
            Operation::List => {},
            Operation::Create { username: created } => {
                if accepts(records, operation) {
                    if username == created {
                        vstd::multiset::lemma_insert_increases_count_by_1(records, created);
                    } else {
                        vstd::multiset::lemma_insert_other_elements_unchanged(
                            records,
                            created,
                            username,
                        );
                    }
                }
            },
            Operation::Delete { username: deleted } => {
                if username == deleted {
                    vstd::multiset::lemma_update_same(records, deleted, 0);
                } else {
                    vstd::multiset::lemma_update_different(records, deleted, 0, username);
                }
            },
        }
    }
}

/// A request to create a user succeeds exactly if the username has fewer
/// than 14 characters and is not on record. Then the user is on record and
/// the caller reads the confirmation. Otherwise the records stay as they were
/// and the caller reads the one reply that every failure earns.
pub proof fn creation_follows_the_schema(records: Multiset<Seq<char>>, username: Seq<char>)
    ensures
        succeeds(records, create_statement(username)) <==> username.len() < 14 && records.count(
            username,
        ) == 0,
        succeeds(records, create_statement(username)) ==> {
            &&& records_after(records, create_statement(username)) == records.insert(username)
            &&& create_user_reply(succeeds(records, create_statement(username))) == created()
        },
        !succeeds(records, create_statement(username)) ==> {
            &&& records_after(records, create_statement(username)) == records
            &&& create_user_reply(succeeds(records, create_statement(username))) == failed()
        },
{
}

/// Creating users never takes a record away.
proof fn lemma_creating_keeps_records(
    records: Multiset<Seq<char>>,
    usernames: Seq<Seq<char>>,
    shorter: int,
    longer: int,
    username: Seq<char>,
)
    requires
        0 <= shorter <= longer <= usernames.len(),
    ensures
        records_after_creating(records, usernames.take(shorter)).count(username)
            <= records_after_creating(records, usernames.take(longer)).count(username),
    decreases longer - shorter,
{
    if shorter < longer {
        lemma_creating_keeps_records(records, usernames, shorter, longer - 1, username);
        assert(usernames.take(longer).drop_last() =~= usernames.take(longer - 1));
        assert(usernames.take(longer).last() == usernames[longer - 1]);
    }
}

/// Of two requests to create a user with the same username, the later one
/// fails, whatever else was created before, between and after them, and
/// whether or not the earlier one succeeded. The caller of the later one
/// reads the reply that every failure earns.
pub proof fn username_is_created_at_most_once(
    records: Multiset<Seq<char>>,
    usernames: Seq<Seq<char>>,
    earlier: int,
    later: int,
)
    requires
        0 <= earlier < later < usernames.len(),
        usernames[earlier] == usernames[later],
    ensures
        !succeeds(
            records_after_creating(records, usernames.take(later)),
            create_statement(usernames[later]),
        ),
        create_user_reply(
            succeeds(
                records_after_creating(records, usernames.take(later)),
                create_statement(usernames[later]),
            ),
        ) == failed(),
{
    let username = usernames[earlier];
    if admissible(username) {
        assert(usernames.take(earlier + 1).drop_last() =~= usernames.take(earlier));
        assert(usernames.take(earlier + 1).last() == username);
        assert(records_after_creating(records, usernames.take(earlier + 1)).count(username) >= 1);
        lemma_creating_keeps_records(records, usernames, earlier + 1, later, username);
    }
}

/// Records that obey the schema still do after any number of requests to
/// create users: however often a username was asked for, it is on record
/// once at most.
pub proof fn creating_keeps_the_schema(records: Multiset<Seq<char>>, usernames: Seq<Seq<char>>)
    requires
        consistent(records),
    ensures
        consistent(records_after_creating(records, usernames)),
    decreases usernames.len(),
{
    if usernames.len() > 0 {
        creating_keeps_the_schema(records, usernames.drop_last());
        schema_is_kept(
            records_after_creating(records, usernames.drop_last()),
            Operation::Create { username: usernames.last() },
        );
    }
}

/// A request to delete a user always succeeds and the caller reads the
/// confirmation, whether or not the username was on record. Afterwards the
/// username is not on record and every other record is as it was. Where the
/// username was not on record nothing changes, so a second deletion right
/// after the first succeeds as well and changes nothing.
pub proof fn deletion_is_idempotent(records: Multiset<Seq<char>>, username: Seq<char>)
    ensures
        succeeds(records, delete_statement(username)),
        delete_user_reply(succeeds(records, delete_statement(username))) == deleted(),
        records_after(records, delete_statement(username)).count(username) == 0,
        forall|other: Seq<char>|
            other != username ==> #[trigger] records_after(
                records,
                delete_statement(username),
            ).count(other) == records.count(other),
        records.count(username) == 0 ==> records_after(records, delete_statement(username))
            == records,
        succeeds(records_after(records, delete_statement(username)), delete_statement(username)),
        records_after(
            records_after(records, delete_statement(username)),
            delete_statement(username),
        ) == records_after(records, delete_statement(username)),
{
    let once = records_after(records, delete_statement(username));
    let twice = records_after(once, delete_statement(username));
    assert(once == records.update(username, 0));
    vstd::multiset::lemma_update_same(records, username, 0);
    assert forall|other: Seq<char>| other != username implies #[trigger] once.count(other)
        == records.count(other) by {
        vstd::multiset::lemma_update_different(records, username, 0, other);
    }
    if records.count(username) == 0 {
        assert(once =~= records);
    }
    vstd::multiset::lemma_update_same(once, username, 0);
    assert forall|other: Seq<char>| other != username implies #[trigger] twice.count(other)
        == once.count(other) by {
        vstd::multiset::lemma_update_different(once, username, 0, other);
    }
    assert(twice =~= once);
}

/// A request for every user succeeds and changes nothing. On records that
/// obey the schema, the caller reads each username on record once and no
/// other, in the order in which the store delivered them.
pub proof fn listing_shows_the_records(records: Multiset<Seq<char>>, rows: Seq<Seq<char>>)
    requires
        consistent(records),
        delivers(records, rows),
    ensures
        succeeds(records, list_statement()),
        records_after(records, list_statement()) == records,
        get_users_reply(Some(rows)) == listed(rows),
        rows.no_duplicates(),
        forall|username: Seq<char>| rows.contains(username) <==> records.count(username) > 0,
{
    rows.to_multiset_ensures();
    let delivered = rows.to_multiset();
    assert forall|username: Seq<char>| delivered.contains(username) implies delivered.count(
        username,
    ) == 1 by {
        assert(records.count(username) > 0);
    }
    rows.lemma_multiset_has_no_duplicates_conv();
}

/// Requests to create users with usernames that are admissible, differ from
/// each other and are not on record all succeed, in whatever order they reach
/// the store, and leave on record what was there before and one user for
/// each request. On a store that was empty, a request for every user is then
/// answered with exactly the usernames asked for, each once.
pub proof fn distinct_creations_all_succeed(
    records: Multiset<Seq<char>>,
    usernames: Seq<Seq<char>>,
)
    requires
        usernames.no_duplicates(),
        forall|at: int|
            0 <= at < usernames.len() ==> admissible(#[trigger] usernames[at]) && records.count(
                usernames[at],
            ) == 0,
    ensures
        forall|at: int|
            0 <= at < usernames.len() ==> succeeds(
                records_after_creating(records, #[trigger] usernames.take(at)),
                create_statement(usernames[at]),
            ),
        records_after_creating(records, usernames) == records.add(usernames.to_multiset()),
        records.len() == 0 ==> forall|rows: Seq<Seq<char>>| #[trigger]
            delivers(records_after_creating(records, usernames), rows) ==> rows.to_multiset()
                == usernames.to_multiset(),
{
    assert forall|at: int| 0 <= at <= usernames.len() implies {
        &&& #[trigger] records_after_creating(records, usernames.take(at)) == records.add(
            usernames.take(at).to_multiset(),
        )
        &&& at < usernames.len() ==> succeeds(
            records_after_creating(records, usernames.take(at)),
            create_statement(usernames[at]),
        )
    } by {
        lemma_distinct_creations(records, usernames, at);
    }
    assert(usernames.take(usernames.len() as int) =~= usernames);
    if records.len() == 0 {
        assert(records.add(usernames.to_multiset()) =~= usernames.to_multiset());
    }
}

/// The records after the first `count` of the requests of
/// [`distinct_creations_all_succeed`], and the success of the next one.
proof fn lemma_distinct_creations(
    records: Multiset<Seq<char>>,
    usernames: Seq<Seq<char>>,
    count: int,
)
    requires
        usernames.no_duplicates(),
        forall|at: int|
            0 <= at < usernames.len() ==> admissible(#[trigger] usernames[at]) && records.count(
                usernames[at],
            ) == 0,
        0 <= count <= usernames.len(),
    ensures
        records_after_creating(records, usernames.take(count)) == records.add(
            usernames.take(count).to_multiset(),
        ),
        count < usernames.len() ==> succeeds(
            records_after_creating(records, usernames.take(count)),
            create_statement(usernames[count]),
        ),
    decreases count,
{
    let created = usernames.take(count);
    if count == 0 {
        created.to_multiset_ensures();
        assert(created.to_multiset() =~= Multiset::empty());
        assert(records.add(created.to_multiset()) =~= records);
    } else {
        lemma_distinct_creations(records, usernames, count - 1);
        let before = usernames.take(count - 1);
        assert(created.drop_last() =~= before);
        assert(created =~= before.push(usernames[count - 1]));
        before.to_multiset_ensures();
        assert(records.add(before.to_multiset()).insert(usernames[count - 1]) =~= records.add(
            created.to_multiset(),
        ));
    }
    if count < usernames.len() {
        created.to_multiset_ensures();
        assert(!created.contains(usernames[count]));
    }
}

} // verus!
