//! The storage calls, each as what it reports of what the driver answered.

pub mod agile;
pub mod simple_task;
pub mod todo_list;
pub mod user;

use vstd::prelude::*;
use crate::error_messages::storage::DriverError;

verus! {

/// What came of asking the store to keep or change a record.
#[derive(Debug, Clone, PartialEq, Eq)]
pub enum StoreWrite {
    /// The record did not encode as a document, so the store was not asked.
    NotADocument,
    /// The store did as asked.
    Done,
    /// The driver reported a failure.
    Failed(DriverError),
}

} // verus!
