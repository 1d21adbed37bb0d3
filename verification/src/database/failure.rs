//! How a database call failed, as far as the routes tell failures apart.
use vstd::prelude::*;

verus! {

/// A failed database call. The HTTP layer builds it from the database library's error: a query
/// that should return a row and returned none, the violation of a foreign key or of a unique
/// constraint (with the database's message, which names the constraint), or anything else.
#[derive(Debug, Clone, PartialEq, Eq)]
pub enum DbFailure {
    NotFound,
    ForeignKeyViolation(String),
    UniqueViolation(String),
    Other,
}

} // verus!
