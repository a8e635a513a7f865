//! The user record: the sole entity of the service, and its mathematical
//! view.

use vstd::prelude::*;

verus! {

/// A persisted user record.  The id is assigned by the store on insert and
/// never reassigned.
#[derive(Debug)]
pub struct User {
    pub id: i32,
    pub name: String,
    pub email: String,
}

/// The mathematical view of a user record.
pub ghost struct UserView {
    pub id: int,
    pub name: Seq<char>,
    pub email: Seq<char>,
}

impl View for User {
    type V = UserView;

    open spec fn view(&self) -> UserView {
        UserView { id: self.id as int, name: self.name@, email: self.email@ }
    }
}

impl User {
    /// An independent copy of the record, with the same view.
    pub fn duplicate(&self) -> (r: User)
        ensures
            r@ == self@,
    {
        User { id: self.id, name: self.name.clone(), email: self.email.clone() }
    }
}

/// The views of a sequence of records, in order.
pub open spec fn views_of(s: Seq<User>) -> Seq<UserView> {
    s.map_values(|u: User| u@)
}

/// A stored record is within the field bounds that the validation layer
/// enforces, and its id is positive.
pub open spec fn record_ok(u: UserView) -> bool {
    &&& 0 < u.id
    &&& 1 <= u.name.len() <= 50
    &&& 1 <= u.email.len() <= 100
}

/// No two records of the sequence share an id.
pub open spec fn distinct_ids(s: Seq<UserView>) -> bool {
    forall|i: int, j: int| 0 <= i < j < s.len() ==> s[i].id != s[j].id
}

/// Some record of the sequence has the given id.
pub open spec fn has_id(s: Seq<UserView>, id: int) -> bool {
    exists|i: int| 0 <= i < s.len() && (#[trigger] s[i]).id == id
}

} // verus!
