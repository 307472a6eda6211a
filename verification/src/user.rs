//! The one kind of record the service keeps.

use vstd::prelude::*;

verus! {

/// A user: nothing but a username.
///
/// A value of this type is whatever a request or the store handed over. It is
/// never trimmed, folded to one case or cut to length here: whether a
/// username may be stored is for the store to say.
#[derive(Debug)]
pub struct User {
    username: String,
}

impl View for User {
    type V = Seq<char>;

    /// A user is modelled by the characters of its username.
    closed spec fn view(&self) -> Seq<char> {
        self.username@
    }
}

impl DeepView for User {
    type V = Seq<char>;

    open spec fn deep_view(&self) -> Seq<char> {
        self@
    }
}

impl User {
    /// The user with exactly this username.
    pub fn new(username: String) -> (user: User)
        ensures
            user@ == username@,
    {
        User { username }
    }

    /// The username, character for character.
    pub fn username(&self) -> (username: &str)
        ensures
            username@ == self@,
    {
        self.username.as_str()
    }

    /// Gives the username back, consuming the user.
    pub fn into_username(self) -> (username: String)
        ensures
            username@ == self@,
    {
        self.username
    }
}

impl Clone for User {
    fn clone(&self) -> (copy: User)
        ensures
            copy@ == self@,
    {
        User { username: self.username.clone() }
    }
}

impl PartialEq for User {
    fn eq(&self, other: &User) -> (same: bool) {
        self.username == other.username
    }
}

impl Eq for User {

}

impl vstd::std_specs::cmp::PartialEqSpecImpl for User {
    open spec fn obeys_eq_spec() -> bool {
        true
    }

    /// Two users are equal when their usernames are.
    open spec fn eq_spec(&self, other: &User) -> bool {
        self@ == other@
    }
}

} // verus!
