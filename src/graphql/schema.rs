//! Roots of the schema that take no part in queries.

use vstd::prelude::*;

verus! {

/// The mutation root of a schema that offers no mutations.
#[derive(Clone, Copy, Debug, PartialEq, Eq)]
pub struct MutationRoot;

} // verus!
