//! A verified model of a small user-record service: input validation,
//! an entity store with unique generated ids, and the decision logic of
//! the five CRUD operations (create, get, list, update, delete).

pub mod handlers;
pub mod laws;
pub mod store;
pub mod user;
pub mod validation;

use vstd::prelude::*;

verus! {

/// Payload of a create or update request: a candidate name and email.
pub struct CreateUser {
    pub name: String,
    pub email: String,
}

} // verus!
