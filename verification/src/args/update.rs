use vstd::prelude::*;

use crate::table::Queryable;

verus! {

/// The type expected when updating an entity: the filter that picks the
/// rows and the filter-shaped set of new values.
pub struct Update<A> where A: Queryable {
    pub match_params: A::QueryArgs,
    pub new_params: A::QueryArgs,
}

} // verus!
