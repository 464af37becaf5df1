//! The records that the store keeps, and the rules that the records
//! themselves carry (which states a fragment may move through).

pub mod model;

use vstd::prelude::*;

verus! {

/// A failure reported by the store, with its message.
#[derive(Debug)]
pub struct StorageError {
    pub message: String,
}

/// Whether a deletion removed a record, from the number of rows that the
/// store reports deleted.
pub fn removed_any(rows_affected: u64) -> (b: bool)
    ensures
        b == (rows_affected > 0),
{
    rows_affected > 0
}

} // verus!
