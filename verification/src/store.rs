//! The entity store: an in-memory model of the relational table that holds
//! the user records, with insert, find-by-id, find-all, update and delete
//! operations.
//!
//! Records are kept in insertion order, ids are generated by a counter that
//! starts at 1, and every stored record satisfies the validation bounds:
//! these are the invariants the handlers rely on.

use vstd::prelude::*;

use crate::user::{distinct_ids, has_id, record_ok, views_of, User, UserView};

verus! {

/// The store of user records.
pub struct UserStore {
    users: Vec<User>,
    next: i32,
}

impl View for UserStore {
    type V = Seq<UserView>;

    closed spec fn view(&self) -> Seq<UserView> {
        views_of(self.users@)
    }
}

impl UserStore {
    /// The id the next inserted record will receive.
    pub closed spec fn next_id(&self) -> int {
        self.next as int
    }

    /// The store invariant: ids are distinct, positive and below the
    /// counter, and every record is within the validation bounds.
    pub open spec fn wf(&self) -> bool {
        &&& distinct_ids(self@)
        &&& 1 <= self.next_id() <= i32::MAX
        &&& forall|i: int| 0 <= i < self@.len() ==> record_ok(#[trigger] self@[i]) && self@[i].id < self.next_id()
    }

    /// An empty store; the first record will receive id 1.
    pub fn new() -> (r: UserStore)
        ensures
            r.wf(),
            r@.len() == 0,
            r.next_id() == 1,
    {
        UserStore { users: Vec::new(), next: 1 }
    }

    /// Inserts a record, assigning it the next fresh id, and returns that id.
    pub fn insert(&mut self, name: String, email: String) -> (id: i32)
        requires
            old(self).wf(),
            old(self).next_id() < i32::MAX,
            1 <= name@.len() <= 50,
            1 <= email@.len() <= 100,
        ensures
            final(self).wf(),
            id as int == old(self).next_id(),
            final(self).next_id() == old(self).next_id() + 1,
            final(self)@ == old(self)@.push((UserView { id: id as int, name: name@, email: email@ })),
    {
        let id = self.next;
        let ghost prev = self@;
        let ghost uv = UserView { id: id as int, name: name@, email: email@ };
        self.users.push(User { id, name, email });
        self.next = self.next + 1;
        proof {
            assert forall|k: int| 0 <= k < self@.len() implies self@[k] == prev.push(uv)[k] by {
                if k < prev.len() {
                    assert(self@[k] == prev[k]);
                } else {
                    assert(self@[k] == uv);
                }
            }
            assert(self@ =~= prev.push(uv));
            assert forall|k: int| 0 <= k < self@.len() implies record_ok(#[trigger] self@[k])
                && self@[k].id < self.next_id() by {
                if k < prev.len() {
                    assert(record_ok(prev[k]) && prev[k].id < old(self).next_id());
                }
            }
            assert forall|a: int, b: int| 0 <= a < b < self@.len() implies self@[a].id != self@[b].id by {
                if b < prev.len() {
                    assert(prev[a].id != prev[b].id);
                } else {
                    assert(prev[a].id < old(self).next_id());
                }
            }
        }
        id
    }

    /// Returns a copy of the record with the given id, or `None` when no
    /// record has it.
    pub fn find_by_id(&self, id: i32) -> (r: Option<User>)
        requires
            self.wf(),
        ensures
            match r {
                Some(u) => {
                    &&& has_id(self@, id as int)
                    &&& u@.id == id as int
                    &&& exists|i: int| 0 <= i < self@.len() && #[trigger] self@[i] == u@
                },
                None => !has_id(self@, id as int),
            },
    {
        let n = self.users.len();
        let mut i: usize = 0;
        while i < n
            invariant
                n == self@.len(),
                i <= n,
                forall|j: int| 0 <= j < i ==> (#[trigger] self@[j]).id != id as int,
            decreases n - i,
        {
            if self.users[i].id == id {
                let u = self.users[i].duplicate();
                proof {
                    assert(self@[i as int] == u@);
                }
                return Some(u);
            }
            i = i + 1;
        }
        None
    }

    /// Returns copies of all records, in insertion order.
    pub fn find_all(&self) -> (r: Vec<User>)
        ensures
            views_of(r@) == self@,
            r@.len() == self@.len(),
    {
        let n = self.users.len();
        let mut out: Vec<User> = Vec::new();
        let mut i: usize = 0;
        while i < n
            invariant
                n == self@.len(),
                i <= n,
                out@.len() == i,
                forall|j: int| 0 <= j < i ==> views_of(out@)[j] == #[trigger] self@[j],
            decreases n - i,
        {
            out.push(self.users[i].duplicate());
            i = i + 1;
        }
        proof {
            assert(views_of(out@) =~= self@);
        }
        out
    }

    /// Replaces the name and email of the record with the given id, keeping
    /// its id and its position; returns a copy of the updated record, or
    /// `None` when no record has the id.
    pub fn update_by_id(&mut self, id: i32, name: String, email: String) -> (r: Option<User>)
        requires
            old(self).wf(),
            1 <= name@.len() <= 50,
            1 <= email@.len() <= 100,
        ensures
            final(self).wf(),
            final(self).next_id() == old(self).next_id(),
            match r {
                Some(u) => {
                    &&& has_id(old(self)@, id as int)
                    &&& u@.id == id as int
                    &&& u@.name == name@
                    &&& u@.email == email@
                    &&& exists|i: int| 0 <= i < old(self)@.len()
                        && (#[trigger] old(self)@[i]).id == id as int
                        && final(self)@ == old(self)@.update(i, u@)
                },
                None => {
                    &&& !has_id(old(self)@, id as int)
                    &&& final(self)@ == old(self)@
                },
            },
    {
        let n = self.users.len();
        let mut i: usize = 0;
        while i < n
            invariant
                old(self).wf(),
                self.users@ == old(self).users@,
                self.next == old(self).next,
                1 <= name@.len() <= 50,
                1 <= email@.len() <= 100,
                n == self@.len(),
                i <= n,
                forall|j: int| 0 <= j < i ==> (#[trigger] self@[j]).id != id as int,
            decreases n - i,
        {
            if self.users[i].id == id {
                let ghost prev = self@;
                let updated = User { id, name, email };
                let copy = updated.duplicate();
                self.users[i] = updated;
                proof {
                    assert forall|k: int| 0 <= k < self@.len() implies self@[k] == prev.update(
                        i as int,
                        copy@,
                    )[k] by {
                        if k != i {
                            assert(self.users@[k] == old(self).users@[k]);
                        }
                    }
                    assert(self@ =~= prev.update(i as int, copy@));
                    assert(prev == old(self)@);
                    assert(prev[i as int].id == id as int);
                    assert forall|k: int| 0 <= k < self@.len() implies record_ok(#[trigger] self@[k])
                        && self@[k].id < self.next_id() && self@[k].id == old(self)@[k].id by {
                        assert(record_ok(old(self)@[k]) && old(self)@[k].id < old(self).next_id());
                        if k == i {
                            assert(self@[k] == copy@);
                        } else {
                            assert(self@[k] == prev[k]);
                        }
                    }
                    assert forall|a: int, b: int| 0 <= a < b < self@.len() implies self@[a].id
                        != self@[b].id by {
                        assert(old(self)@[a].id != old(self)@[b].id);
                    }
                    assert(0 <= (i as int) < old(self)@.len() && (old(self)@[i as int]).id == id as int
                        && self@ == old(self)@.update(i as int, copy@));
                }
                return Some(copy);
            }
            i = i + 1;
        }
        None
    }

    /// Removes the record with the given id, keeping the order of the rest;
    /// returns whether a record was removed.
    pub fn delete_by_id(&mut self, id: i32) -> (r: bool)
        requires
            old(self).wf(),
        ensures
            final(self).wf(),
            final(self).next_id() == old(self).next_id(),
            r == has_id(old(self)@, id as int),
            r ==> exists|i: int| 0 <= i < old(self)@.len()
                && (#[trigger] old(self)@[i]).id == id as int
                && final(self)@ == old(self)@.remove(i),
            !r ==> final(self)@ == old(self)@,
    {
        let n = self.users.len();
        let mut i: usize = 0;
        while i < n
            invariant
                old(self).wf(),
                self.users@ == old(self).users@,
                self.next == old(self).next,
                n == self@.len(),
                i <= n,
                forall|j: int| 0 <= j < i ==> (#[trigger] self@[j]).id != id as int,
            decreases n - i,
        {
            if self.users[i].id == id {
                let ghost prev = self@;
                let ghost prev_users = self.users@;
                self.users.remove(i);
                proof {
                    prev_users.remove_ensures(i as int);
                    prev.remove_ensures(i as int);
                    assert forall|k: int| 0 <= k < self@.len() implies self@[k] == prev.remove(
                        i as int,
                    )[k] by {
                        if k < i {
                            assert(self.users@[k] == prev_users[k]);
                            assert(prev.remove(i as int)[k] == prev[k]);
                        } else {
                            assert(self.users@[k] == prev_users[k + 1]);
                            assert(prev.remove(i as int)[k] == prev[k + 1]);
                        }
                    }
                    assert(self@ =~= prev.remove(i as int));
                    assert(prev == old(self)@);
                    assert((old(self)@[i as int]).id == id as int);
                    assert(self@ == old(self)@.remove(i as int));
                    assert forall|k: int| 0 <= k < self@.len() implies record_ok(#[trigger] self@[k])
                        && self@[k].id < self.next_id() by {
                        if k < i {
                            assert(prev[k] == old(self)@[k]);
                            assert(record_ok(old(self)@[k]) && old(self)@[k].id < old(self).next_id());
                        } else {
                            assert(prev[k + 1] == old(self)@[k + 1]);
                            assert(record_ok(old(self)@[k + 1]) && old(self)@[k + 1].id < old(self).next_id());
                        }
                    }
                    assert forall|a: int, b: int| 0 <= a < b < self@.len() implies self@[a].id
                        != self@[b].id by {
                        let a0: int = if a < i { a } else { a + 1 };
                        let b0: int = if b < i { b } else { b + 1 };
                        assert(self@[a] == prev[a0]);
                        assert(self@[b] == prev[b0]);
                        assert(prev[a0].id != prev[b0].id);
                    }
                }
                return true;
            }
            i = i + 1;
        }
        false
    }
}

} // verus!
