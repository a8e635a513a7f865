//! The request handlers: one function per CRUD operation, each validating
//! its input, invoking one store operation, and producing a tagged outcome.
//!
//! Every outcome is a `Response`; `status_code` and `body_text` map each tag
//! to its HTTP status and plain-text body at one central point.  The store
//! model never fails, so the storage-failure tags are produced only by the
//! surrounding program, when a real database reports an error; their status
//! and text here record how each operation's failure is reported.

use vstd::prelude::*;
use vstd::string::StringExecFns;

use crate::store::UserStore;
use crate::user::{has_id, views_of, User, UserView};
use crate::validation::{payload_ok, validate_payload, violations_of, Violation};
use crate::CreateUser;

verus! {

/// The store operation in whose place a storage failure is reported.
#[derive(Clone, Copy, Debug, PartialEq, Eq, Structural)]
pub enum StorageOp {
    /// Inserting the new record of a create request.
    InsertUser,
    /// Re-reading the record a create request just inserted.
    RefetchCreated,
    /// Reading one record, for a get request or before an update.
    FetchUser,
    /// Reading all records for a list request.
    ListUsers,
    /// Writing the changed record of an update request.
    UpdateUser,
    /// Removing the record of a delete request.
    DeleteUser,
}

/// The outcome of one handled request, as a tag plus payload.
#[derive(Debug)]
pub enum Response {
    /// A record was created: reported as 201 with the record.
    Created(User),
    /// A record was found or updated: reported as 200 with the record.
    OkUser(User),
    /// All records were listed: reported as 200 with the array.
    OkUsers(Vec<User>),
    /// A record was deleted: reported as 200 with a plain-text body.
    Deleted,
    /// The payload broke a validation rule: reported as 400 with the
    /// field-level violations.
    ValidationFailed(Vec<Violation>),
    /// No record has the requested id: reported as 404 with a plain-text
    /// body.
    NotFound,
    /// The storage layer failed during the given operation.
    StorageFailed(StorageOp),
}

/// The HTTP status of each outcome.  A storage failure during insert or
/// delete is reported as 400, during any other operation as 500.
pub open spec fn status_of(r: Response) -> int {
    match r {
        Response::Created(_) => 201,
        Response::OkUser(_) => 200,
        Response::OkUsers(_) => 200,
        Response::Deleted => 200,
        Response::ValidationFailed(_) => 400,
        Response::NotFound => 404,
        Response::StorageFailed(op) => match op {
            StorageOp::InsertUser => 400,
            StorageOp::DeleteUser => 400,
            StorageOp::RefetchCreated => 500,
            StorageOp::FetchUser => 500,
            StorageOp::ListUsers => 500,
            StorageOp::UpdateUser => 500,
        },
    }
}

/// Maps an outcome to its HTTP status code.
pub fn status_code(r: &Response) -> (code: u16)
    ensures
        code == status_of(*r),
{
    match r {
        Response::Created(_) => 201,
        Response::OkUser(_) => 200,
        Response::OkUsers(_) => 200,
        Response::Deleted => 200,
        Response::ValidationFailed(_) => 400,
        Response::NotFound => 404,
        Response::StorageFailed(op) => match op {
            StorageOp::InsertUser => 400,
            StorageOp::DeleteUser => 400,
            StorageOp::RefetchCreated => 500,
            StorageOp::FetchUser => 500,
            StorageOp::ListUsers => 500,
            StorageOp::UpdateUser => 500,
        },
    }
}

/// The plain-text body reporting a storage failure, per operation.
pub open spec fn failure_text(op: StorageOp) -> Seq<char> {
    match op {
        StorageOp::InsertUser => "Error creating user"@,
        StorageOp::RefetchCreated => "Error retrieving created user"@,
        StorageOp::FetchUser => "Error retrieving user"@,
        StorageOp::ListUsers => "Error listing users"@,
        StorageOp::UpdateUser => "Error updating user"@,
        StorageOp::DeleteUser => "Error deleting user"@,
    }
}

/// The plain-text body of an outcome, `None` for the outcomes whose body is
/// the record or the violations themselves.
pub fn body_text(r: &Response) -> (t: Option<String>)
    ensures
        match r {
            Response::Deleted => t matches Some(s) && s@ == "User deleted"@,
            Response::NotFound => t matches Some(s) && s@ == "User not found"@,
            Response::StorageFailed(op) => t matches Some(s) && s@ == failure_text(*op),
            _ => t is None,
        },
{
    match r {
        Response::Deleted => Some(String::from_str("User deleted")),
        Response::NotFound => Some(String::from_str("User not found")),
        Response::StorageFailed(op) => match op {
            StorageOp::InsertUser => Some(String::from_str("Error creating user")),
            StorageOp::RefetchCreated => Some(String::from_str("Error retrieving created user")),
            StorageOp::FetchUser => Some(String::from_str("Error retrieving user")),
            StorageOp::ListUsers => Some(String::from_str("Error listing users")),
            StorageOp::UpdateUser => Some(String::from_str("Error updating user")),
            StorageOp::DeleteUser => Some(String::from_str("Error deleting user")),
        },
        _ => None,
    }
}

/// Handles a create request: validates the payload, inserts the record with
/// a fresh id, and re-reads it, returning the persisted record.
pub fn create_user(store: &mut UserStore, payload: &CreateUser) -> (r: Response)
    requires
        old(store).wf(),
        old(store).next_id() < i32::MAX,
    ensures
        final(store).wf(),
        ({
            let nv = UserView {
                id: old(store).next_id(),
                name: payload.name@,
                email: payload.email@,
            };
            if payload_ok(payload.name@, payload.email@) {
                &&& final(store)@ == old(store)@.push(nv)
                &&& final(store).next_id() == old(store).next_id() + 1
                &&& (r matches Response::Created(u) && u@ == nv)
            } else {
                &&& final(store)@ == old(store)@
                &&& final(store).next_id() == old(store).next_id()
                &&& (r matches Response::ValidationFailed(v) && v@ == violations_of(
                    payload.name@,
                    payload.email@,
                ))
            }
        }),
{
    let violations = validate_payload(payload.name.as_str(), payload.email.as_str());
    if violations.len() > 0 {
        return Response::ValidationFailed(violations);
    }
    let id = store.insert(payload.name.clone(), payload.email.clone());
    let ghost nv = UserView { id: id as int, name: payload.name@, email: payload.email@ };
    proof {
        assert(store@[store@.len() - 1] == nv);
    }
    match store.find_by_id(id) {
        Some(u) => {
            proof {
                let j = choose|j: int| 0 <= j < store@.len() && store@[j] == u@;
                assert(store@[j] == u@);
                if j != store@.len() - 1 {
                    assert(store@[j].id != store@[store@.len() - 1].id);
                }
                assert(u@ == nv);
            }
            Response::Created(u)
        },
        None => {
            proof {
                assert(has_id(store@, id as int));
                assert(false);
            }
            Response::StorageFailed(StorageOp::RefetchCreated)
        },
    }
}

/// Handles a get request: returns the record with the given id, or
/// not-found.
pub fn get_user(store: &UserStore, id: i32) -> (r: Response)
    requires
        store.wf(),
    ensures
        match r {
            Response::OkUser(u) => {
                &&& has_id(store@, id as int)
                &&& u@.id == id as int
                &&& exists|i: int| 0 <= i < store@.len() && #[trigger] store@[i] == u@
            },
            Response::NotFound => !has_id(store@, id as int),
            _ => false,
        },
{
    match store.find_by_id(id) {
        Some(u) => Response::OkUser(u),
        None => Response::NotFound,
    }
}

/// Handles a list request: returns all records, in insertion order.
pub fn list_users(store: &UserStore) -> (r: Response)
    ensures
        r matches Response::OkUsers(users) && views_of(users@) == store@,
{
    Response::OkUsers(store.find_all())
}

/// Handles an update request: validates the payload, then replaces the name
/// and email of the record with the given id, keeping its id.
pub fn update_user(store: &mut UserStore, id: i32, payload: &CreateUser) -> (r: Response)
    requires
        old(store).wf(),
    ensures
        final(store).wf(),
        final(store).next_id() == old(store).next_id(),
        match r {
            Response::ValidationFailed(v) => {
                &&& !payload_ok(payload.name@, payload.email@)
                &&& v@ == violations_of(payload.name@, payload.email@)
                &&& final(store)@ == old(store)@
            },
            Response::NotFound => {
                &&& payload_ok(payload.name@, payload.email@)
                &&& !has_id(old(store)@, id as int)
                &&& final(store)@ == old(store)@
            },
            Response::OkUser(u) => {
                &&& payload_ok(payload.name@, payload.email@)
                &&& has_id(old(store)@, id as int)
                &&& u@.id == id as int
                &&& u@.name == payload.name@
                &&& u@.email == payload.email@
                &&& exists|i: int| 0 <= i < old(store)@.len()
                    && (#[trigger] old(store)@[i]).id == id as int
                    && final(store)@ == old(store)@.update(i, u@)
            },
            _ => false,
        },
{
    let violations = validate_payload(payload.name.as_str(), payload.email.as_str());
    if violations.len() > 0 {
        return Response::ValidationFailed(violations);
    }
    match store.update_by_id(id, payload.name.clone(), payload.email.clone()) {
        Some(u) => Response::OkUser(u),
        None => Response::NotFound,
    }
}

/// Handles a delete request: removes the record with the given id, or
/// reports not-found.
pub fn delete_user(store: &mut UserStore, id: i32) -> (r: Response)
    requires
        old(store).wf(),
    ensures
        final(store).wf(),
        final(store).next_id() == old(store).next_id(),
        match r {
            Response::Deleted => {
                &&& has_id(old(store)@, id as int)
                &&& exists|i: int| 0 <= i < old(store)@.len()
                    && (#[trigger] old(store)@[i]).id == id as int
                    && final(store)@ == old(store)@.remove(i)
            },
            Response::NotFound => {
                &&& !has_id(old(store)@, id as int)
                &&& final(store)@ == old(store)@
            },
            _ => false,
        },
{
    if store.delete_by_id(id) {
        Response::Deleted
    } else {
        Response::NotFound
    }
}

} // verus!
