//! Associations between graph nodes, as eager loading leaves them: a node's
//! related nodes are either loaded, or the field says why they are not.

use vstd::prelude::*;

verus! {

/// The shape of an association.
#[derive(Clone, Copy, Debug, PartialEq, Eq)]
pub enum AssociationType {
    HasOne,
    OptionHasOne,
    HasMany,
    HasManyThrough,
}

/// Why an association cannot be read.
#[derive(Clone, Copy, Debug, PartialEq, Eq)]
pub enum AssociationError {
    /// The association should have been eager loaded, but was not.
    NotLoaded(AssociationType),
    /// Loading the association failed.
    LoadFailed(AssociationType),
}

/// A required association to exactly one node: the node once loaded, or why it is missing.
pub type HasOne<T> = Result<T, AssociationError>;

/// An association to at most one node; it holds none until loaded.
pub type OptionHasOne<T> = Option<T>;

/// An association to any number of nodes through a foreign key on them; empty until loaded.
pub type HasMany<T> = Vec<T>;

/// An association to any number of nodes through a join table; empty until loaded.
pub type HasManyThrough<T> = Vec<T>;

/// Whether a borrowed result carries the same outcome as `s`.
pub open spec fn same_outcome<T>(r: Result<&T, AssociationError>, s: Result<T, AssociationError>) -> bool {
    match r {
        Ok(x) => s == Ok::<T, AssociationError>(*x),
        Err(e) => s == Err::<T, AssociationError>(e),
    }
}

/// Whether `r` lends out exactly the boxed node that `o` holds, or nothing where it holds none.
pub open spec fn lends_boxed<T>(r: Option<&T>, o: Option<Box<T>>) -> bool {
    match (r, o) {
        (Some(x), Some(b)) => *x == *b,
        (None, None) => true,
        _ => false,
    }
}

/// The loaded node of a required association, or why it is missing.
pub fn try_unwrap<T>(a: &HasOne<T>) -> (r: Result<&T, AssociationError>)
    ensures
        same_outcome(r, *a),
{
    match a {
        Ok(v) => Ok(v),
        Err(e) => Err(*e),
    }
}

/// The node of an optional boxed association, lent out unboxed.
pub fn unboxed<T>(a: &OptionHasOne<Box<T>>) -> (r: Option<&T>)
    ensures
        lends_boxed(r, *a),
{
    match a {
        Some(b) => Some(&**b),
        None => None,
    }
}

} // verus!
