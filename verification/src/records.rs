//! Record-id normalization for the document store: a caller may supply a
//! bare id fragment or a fully qualified `table:id` form; every read,
//! update and delete path must qualify it the same way.

use vstd::prelude::*;
use vstd::string::StringExecFns;
use crate::text::{contains_char, spec_contains_char};

verus! {

/// The fully qualified record id for a caller-supplied fragment: one that
/// already holds the `:` separator passes through unchanged; a bare
/// fragment is prefixed with the fixed guitars table name.
pub open spec fn spec_normalize_record_id(id: Seq<char>) -> Seq<char> {
    if spec_contains_char(id, ':') {
        id
    } else {
        "guitars:"@ + id
    }
}

/// Qualify a caller-supplied id fragment.
pub fn normalize_record_id(id: &str) -> (r: String)
    ensures
        r@ == spec_normalize_record_id(id@),
{
    if contains_char(id, ':') {
        String::from_str(id)
    } else {
        let mut r = String::from_str("guitars:");
        r.append(id);
        r
    }
}

/// A fragment without the separator is always prefixed with the fixed
/// table name; one that already holds the separator passes through
/// unchanged.
pub proof fn lemma_normalize_record_id(id: Seq<char>)
    ensures
        !spec_contains_char(id, ':') ==> spec_normalize_record_id(id) == "guitars:"@ + id,
        spec_contains_char(id, ':') ==> spec_normalize_record_id(id) == id,
{
}

} // verus!
