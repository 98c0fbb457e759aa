//! Generation of fresh logical ids for stored entities.

use vstd::prelude::*;

verus! {

/// Relies on `uuid::Uuid::new_v4` and its canonical hyphenated
/// rendering: a random id, always 36 characters. Nothing else can be
/// promised of a random value. uuid offers no fallible constructor, so
/// a failure of the OS random source aborts here instead of surfacing
/// as an error (the password-hashing wrapper maps the same condition to
/// `None`).
#[verifier::external_body]
pub(crate) fn fresh_id() -> (r: String)
    ensures
        r@.len() == 36,
{
    uuid::Uuid::new_v4().to_string()
}

} // verus!
