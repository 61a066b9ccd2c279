//! The search command's surface: one required positional query. The
//! downstream index that answers the query is an external collaborator;
//! only what a valid invocation carries is decided here.

use vstd::prelude::*;

verus! {

/// Accepts the query argument as the argument parser delivered it: a
/// missing query means the invocation was invalid and there is nothing
/// to search for.
pub fn handle_args(query: Option<String>) -> (r: Option<String>)
    ensures
        r == query,
{
    query
}

} // verus!
