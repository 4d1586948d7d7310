//! A small typed data-access layer, verified with Verus.
//!
//! The crate models the classic object-relational pattern on an in-memory
//! store: a schema registry describes tables and their columns, an entity
//! mapper converts between rows of dynamically typed values and record
//! structs, and query operations (insert, select, filter, order, update,
//! join) are executed against a connection that supports a rollback-able
//! transaction scope.

pub mod blog;
pub mod blogdb;
pub mod error;
pub mod filter;
pub mod order;
pub mod postdb;
pub mod posts;
pub mod queries;
pub mod schema;
pub mod text;
pub mod value;
