//! Laws relating the operations: what holds of a store across a create, an
//! update or a delete followed by a later read.  Each is stated over the
//! store's view, the sequence the handlers' contracts speak of.

use vstd::prelude::*;

use crate::user::{distinct_ids, has_id, record_ok, UserView};

verus! {

/// Law: creating a record with a fresh id and then reading that id finds
/// exactly the created record, name and email identical, id stable: after
/// the push its id is present, and every record carrying it is the new one.
pub proof fn lemma_create_then_get(s: Seq<UserView>, nv: UserView)
    requires
        forall|i: int| 0 <= i < s.len() ==> (#[trigger] s[i]).id != nv.id,
    ensures
        has_id(s.push(nv), nv.id),
        forall|k: int|
            0 <= k < s.push(nv).len() && (#[trigger] s.push(nv)[k]).id == nv.id ==> s.push(nv)[k]
                == nv,
{
    assert(s.push(nv)[s.len() as int] == nv);
    assert forall|k: int|
        0 <= k < s.push(nv).len() && (#[trigger] s.push(nv)[k]).id == nv.id implies s.push(nv)[k]
        == nv by {
        if k < s.len() {
            assert(s.push(nv)[k] == s[k]);
        }
    }
}

/// Law: an id that no create call has returned — assigned ids are exactly
/// the positive ones below the store's counter — belongs to no record, so
/// get, update and delete on it report not-found.
pub proof fn lemma_unreturned_id_not_found(s: Seq<UserView>, next: int, id: int)
    requires
        forall|i: int| 0 <= i < s.len() ==> record_ok(#[trigger] s[i]) && s[i].id < next,
        id <= 0 || next <= id,
    ensures
        !has_id(s, id),
{
    if has_id(s, id) {
        let i = choose|i: int| 0 <= i < s.len() && (#[trigger] s[i]).id == id;
        assert(record_ok(s[i]));
    }
}

/// Law: after deleting the record that held an id, no record has that id,
/// so a subsequent get on it reports not-found.
pub proof fn lemma_delete_then_get(s: Seq<UserView>, i: int, id: int)
    requires
        distinct_ids(s),
        0 <= i < s.len(),
        s[i].id == id,
    ensures
        !has_id(s.remove(i), id),
{
    s.remove_ensures(i);
    if has_id(s.remove(i), id) {
        let k = choose|k: int| 0 <= k < s.remove(i).len() && (#[trigger] s.remove(i)[k]).id == id;
        if k < i {
            assert(s.remove(i)[k] == s[k]);
            assert(s[k].id != s[i].id);
        } else {
            assert(s.remove(i)[k] == s[k + 1]);
            assert(s[i].id != s[k + 1].id);
        }
    }
}

/// Law: updating the record at an index to a new value with the same id
/// changes exactly that record's name and email: every id is unchanged, all
/// other records are unchanged, and a subsequent get on the id finds the
/// new values, not the old.
pub proof fn lemma_update_then_get(s: Seq<UserView>, i: int, nv: UserView)
    requires
        distinct_ids(s),
        0 <= i < s.len(),
        nv.id == s[i].id,
    ensures
        s.update(i, nv).len() == s.len(),
        forall|k: int| 0 <= k < s.len() ==> (#[trigger] s.update(i, nv)[k]).id == s[k].id,
        forall|k: int| 0 <= k < s.len() && k != i ==> (#[trigger] s.update(i, nv)[k]) == s[k],
        has_id(s.update(i, nv), nv.id),
        forall|k: int|
            0 <= k < s.len() && (#[trigger] s.update(i, nv)[k]).id == nv.id ==> s.update(i, nv)[k]
                == nv,
{
    assert(s.update(i, nv)[i] == nv);
    assert forall|k: int|
        0 <= k < s.len() && (#[trigger] s.update(i, nv)[k]).id == nv.id implies s.update(i, nv)[k]
        == nv by {
        if k != i {
            assert(s.update(i, nv)[k] == s[k]);
            assert(s[k].id != s[i].id);
        }
    }
}

} // verus!
