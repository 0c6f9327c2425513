//! What can go wrong in the store.

use vstd::prelude::*;

verus! {

/// Why a result row cannot be read as a record.
#[derive(Debug, Clone, Copy, PartialEq, Eq)]
pub enum RowError {
    /// The row has no column at this index.
    MissingColumn(usize),
    /// The column at this index holds a value of another type than the
    /// record's field.
    WrongType(usize),
    /// The integer in the column at this index does not fit the record's
    /// field.
    OutOfRange(usize, i64),
}

/// The failure of a store operation.
#[derive(Debug, Clone, PartialEq, Eq)]
pub enum StoreError {
    /// The lock on the connection could not be had; the text says why.
    Lock(String),
    /// The database refused or failed; the text is its own description.
    Database(String),
    /// The database answered with a row that is no record.
    Row(RowError),
}

impl StoreError {
    /// A description of the failure, fit to show to a user.
    pub fn message(&self) -> (text: String)
        ensures
            text@ == match *self {
                StoreError::Lock(description) => description@,
                StoreError::Database(description) => description@,
                StoreError::Row(RowError::MissingColumn(_)) => "Invalid column index"@,
                StoreError::Row(RowError::WrongType(_)) => "Invalid column type"@,
                StoreError::Row(RowError::OutOfRange(_, _)) => "Integer out of range"@,
            },
    {
        match self {
            StoreError::Lock(description) => description.clone(),
            StoreError::Database(description) => description.clone(),
            StoreError::Row(RowError::MissingColumn(_)) => "Invalid column index".to_owned(),
            StoreError::Row(RowError::WrongType(_)) => "Invalid column type".to_owned(),
            StoreError::Row(RowError::OutOfRange(_, _)) => "Integer out of range".to_owned(),
        }
    }
}

} // verus!
