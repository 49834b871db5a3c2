//! The declarative immutability constraint on spec fields.
//!
//! The constraint is enforced by the API server's admission layer, never by
//! the reconciler: the schema of an immutable string field carries a
//! validation rule that rejects any update changing the value. This module
//! states the rule and its user-facing message; the schema wiring around the
//! external runtime embeds them verbatim.

use vstd::prelude::*;

verus! {

/// The validation rule an immutable string field carries: the new value must
/// equal the previously stored one.
pub fn immutable_string_rule() -> (r: String)
    ensures
        r@ == "self == oldSelf"@,
{
    String::from_str("self == oldSelf")
}

/// The message the API server reports when the rule rejects an update.
pub fn immutable_string_message() -> (r: String)
    ensures
        r@ == "field is immutable"@,
{
    String::from_str("field is immutable")
}

} // verus!
