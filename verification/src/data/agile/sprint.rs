//! Storing sprints.

use vstd::prelude::*;
use crate::data::StoreWrite;
use crate::error_messages::storage::{EvelynBaseError, EvelynDatabaseError};

verus! {

/// What is reported of keeping a sprint.
pub fn insert_sprint(written: StoreWrite) -> (failure: Option<EvelynDatabaseError>)
    ensures
        match written {
            StoreWrite::Done => failure is None,
            StoreWrite::Failed(e) => failure == Some(EvelynDatabaseError::InsertAgileSprint(e)),
            StoreWrite::NotADocument => failure == Some(
                EvelynDatabaseError::SerialisationFailed(EvelynBaseError::NothingElse),
            ),
        },
{
    match written {
        StoreWrite::Done => None,
        StoreWrite::Failed(e) => Some(EvelynDatabaseError::InsertAgileSprint(e)),
        StoreWrite::NotADocument => Some(
            EvelynDatabaseError::SerialisationFailed(EvelynBaseError::NothingElse),
        ),
    }
}

} // verus!
