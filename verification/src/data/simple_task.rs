//! Storing and reading simple tasks.

use vstd::prelude::*;
use crate::data::StoreWrite;
use crate::error_messages::storage::{DriverError, EvelynBaseError, EvelynDatabaseError};
use crate::model::simple_task::SimpleTaskModel;

verus! {

/// What is reported of keeping a new task.
pub fn insert_simple_task(written: StoreWrite) -> (failure: Option<EvelynDatabaseError>)
    ensures
        match written {
            StoreWrite::Done => failure is None,
            StoreWrite::Failed(e) => failure == Some(EvelynDatabaseError::InsertSimpleTask(e)),
            StoreWrite::NotADocument => failure == Some(
                EvelynDatabaseError::SerialisationFailed(EvelynBaseError::NothingElse),
            ),
        },
{
    match written {
        StoreWrite::Done => None,
        StoreWrite::Failed(e) => Some(EvelynDatabaseError::InsertSimpleTask(e)),
        StoreWrite::NotADocument => Some(
            EvelynDatabaseError::SerialisationFailed(EvelynBaseError::NothingElse),
        ),
    }
}

/// The tasks of a user as the store gave them, or what is reported of the
/// driver's failure.
pub fn lookup_simple_tasks(read: Result<Vec<SimpleTaskModel>, DriverError>) -> (found: Result<
    Vec<SimpleTaskModel>,
    EvelynDatabaseError,
>)
    ensures
        match read {
            Ok(tasks) => found == Ok::<Vec<SimpleTaskModel>, EvelynDatabaseError>(tasks),
            Err(e) => found == Err::<Vec<SimpleTaskModel>, EvelynDatabaseError>(
                EvelynDatabaseError::LookupSimpleTask(e),
            ),
        },
{
    match read {
        Ok(tasks) => Ok(tasks),
        Err(e) => Err(EvelynDatabaseError::LookupSimpleTask(e)),
    }
}

/// What is reported of changing a task.
pub fn update_simple_task(changed: Result<(), DriverError>) -> (failure: Option<EvelynDatabaseError>)
    ensures
        match changed {
            Ok(_) => failure is None,
            Err(e) => failure == Some(EvelynDatabaseError::UpdateSimpleTask(e)),
        },
{
    match changed {
        Ok(_) => None,
        Err(e) => Some(EvelynDatabaseError::UpdateSimpleTask(e)),
    }
}

/// What is reported of removing a task.
pub fn remove(removed: Result<(), DriverError>) -> (failure: Option<EvelynDatabaseError>)
    ensures
        match removed {
            Ok(_) => failure is None,
            Err(e) => failure == Some(EvelynDatabaseError::RemoveSimpleTask(e)),
        },
{
    match removed {
        Ok(_) => None,
        Err(e) => Some(EvelynDatabaseError::RemoveSimpleTask(e)),
    }
}

} // verus!
