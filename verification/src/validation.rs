//! The validation layer: field constraints on a candidate `{name, email}`
//! pair, checked before any record reaches the store.
//!
//! A name must have between 1 and 50 characters.  An email must satisfy the
//! HTML5 email rule, decided by the `validator` crate, and have at most 100
//! characters.  Lengths count characters, not bytes, as `validator` does.

use vstd::prelude::*;
use vstd::string::StrSliceExecFns;

verus! {

/// Whether a character sequence is a syntactically valid email address
/// under the HTML5 rule that the `validator` crate implements.
pub uninterp spec fn email_ok(s: Seq<char>) -> bool;

/// Relies on validator's `ValidateEmail` impl for `str`: the HTML5 email
/// rule, a function of the characters alone.  Its source rejects the empty
/// string outright, so a valid email is never empty.
#[verifier::external_body]
pub(crate) fn check_email(s: &str) -> (r: bool)
    ensures
        r == email_ok(s@),
        r ==> s@.len() > 0,
{
    validator::ValidateEmail::validate_email(&s)
}

/// A name is acceptable when it has between 1 and 50 characters.
pub open spec fn name_ok(name: Seq<char>) -> bool {
    1 <= name.len() <= 50
}

/// A whole payload is acceptable when the name is within bounds and the
/// email is syntactically valid and at most 100 characters long.
pub open spec fn payload_ok(name: Seq<char>, email: Seq<char>) -> bool {
    &&& name_ok(name)
    &&& email_ok(email)
    &&& email.len() <= 100
}

/// One field-level violation of the validation rules.
#[derive(Clone, Copy, Debug, PartialEq, Eq, Structural)]
pub enum Violation {
    /// The name is empty or longer than 50 characters.
    NameLength,
    /// The email does not satisfy the email syntax rule.
    EmailSyntax,
    /// The email is longer than 100 characters.
    EmailLength,
}

/// The exact list of violations a payload incurs, in a fixed order:
/// name length, then email syntax, then email length.
pub open spec fn violations_of(name: Seq<char>, email: Seq<char>) -> Seq<Violation> {
    let after_name = if !name_ok(name) {
        seq![Violation::NameLength]
    } else {
        Seq::<Violation>::empty()
    };
    let after_syntax = if !email_ok(email) {
        after_name.push(Violation::EmailSyntax)
    } else {
        after_name
    };
    if email.len() > 100 {
        after_syntax.push(Violation::EmailLength)
    } else {
        after_syntax
    }
}

/// Checks a candidate `{name, email}` pair and returns its violations,
/// an empty list exactly when the payload is acceptable.
pub fn validate_payload(name: &str, email: &str) -> (r: Vec<Violation>)
    ensures
        r@ == violations_of(name@, email@),
        r@.len() == 0 <==> payload_ok(name@, email@),
        r@.len() == 0 ==> 0 < email@.len(),
{
    let mut v: Vec<Violation> = Vec::new();
    let name_len: usize = name.unicode_len();
    if !(1 <= name_len && name_len <= 50) {
        v.push(Violation::NameLength);
    }
    if !check_email(email) {
        v.push(Violation::EmailSyntax);
    }
    let email_len: usize = email.unicode_len();
    if email_len > 100 {
        v.push(Violation::EmailLength);
    }
    proof {
        assert(v@ =~= violations_of(name@, email@));
    }
    v
}

} // verus!
