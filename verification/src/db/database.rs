//! Database session markers and id collection.

use vstd::prelude::*;

verus! {

/// Active database session
pub trait DatabaseSession {}

/// Connection of a database provider
pub trait ConnectionUnit {
    type Error;
}

/// Collects the identifiers of a set of models
pub trait CollectIds<T> {
    fn ids(&self) -> Vec<T>;
}

} // verus!
