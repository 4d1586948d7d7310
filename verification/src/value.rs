//! Dynamically typed column values, as a row carries them.
//!
//! A row returned by (or handed to) the store is an ordered tuple of
//! [`Value`]s. The entity mapper decodes such a row into a record struct
//! and encodes a record back into a row.

use vstd::prelude::*;

verus! {

/// One cell of a row: an integer, a text, or SQL NULL.
#[derive(Debug, PartialEq)]
pub enum Value {
    Int(i32),
    Text(String),
    Null,
}

/// The mathematical model of a [`Value`]: the text is a sequence of
/// characters, the integer an unbounded one.
pub enum ValueModel {
    Int(int),
    Text(Seq<char>),
    Null,
}

impl DeepView for Value {
    type V = ValueModel;

    open spec fn deep_view(&self) -> ValueModel {
        match self {
            Value::Int(i) => ValueModel::Int(*i as int),
            Value::Text(s) => ValueModel::Text(s@),
            Value::Null => ValueModel::Null,
        }
    }
}

} // verus!
