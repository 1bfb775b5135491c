//! Path composition. Paths are opaque strings joined with `/`; composition
//! cannot fail, and malformed segments are accepted as opaque path segments
//! (validation is an external collaborator's responsibility).

use vstd::prelude::*;

verus! {

/// `base` and `segment` joined with a single `/`.
pub open spec fn join_spec(base: Seq<char>, segment: Seq<char>) -> Seq<char> {
    base + "/"@ + segment
}

/// Joins one segment onto a base path.
pub fn join(base: &String, segment: &str) -> (r: String)
    ensures
        r@ == join_spec(base@, segment@),
{
    base.clone().concat("/").concat(segment)
}

} // verus!
