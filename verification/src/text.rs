//! Optional text fields, read as optional sequences of characters.

use vstd::prelude::*;

verus! {

/// The characters of an optional owned string.
pub open spec fn owned_text(field: Option<String>) -> Option<Seq<char>> {
    match field {
        Some(s) => Some(s@),
        None => None,
    }
}

/// The characters of an optional borrowed string.
pub open spec fn borrowed_text(field: Option<&str>) -> Option<Seq<char>> {
    match field {
        Some(s) => Some(s@),
        None => None,
    }
}

/// Takes ownership of an optional borrowed string: present stays present,
/// with the same characters; absent stays absent.
pub(crate) fn to_owned_text(field: Option<&str>) -> (owned: Option<String>)
    ensures
        owned_text(owned) == borrowed_text(field),
{
    match field {
        Some(s) => Some(String::from_str(s)),
        None => None,
    }
}

} // verus!
