//! The error taxonomy of the data-access layer.

use vstd::prelude::*;

verus! {

/// A query against the store failed.
#[derive(Debug, Clone, Copy, PartialEq, Eq, Structural)]
pub enum QueryError {
    /// A single-row load matched no row.
    NotFound,
    /// An insert would break a uniqueness constraint on the primary key.
    ConstraintViolation,
    /// A raw row does not fit the declared shape of the table.
    Malformed,
    /// `begin` was called while a transaction was already open.
    AlreadyInTransaction,
    /// `commit` or `rollback` was called with no open transaction.
    NotInTransaction,
}

/// Decoding a row into a record failed.
#[derive(Debug, Clone, Copy, PartialEq, Eq, Structural)]
pub enum DecodeError {
    /// The row has a different number of columns than the record has fields.
    ColumnCount,
    /// A cell's type does not match the column's declared type.
    ColumnType,
}

} // verus!
