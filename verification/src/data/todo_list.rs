//! Storing and reading todo lists.

use vstd::prelude::*;
use crate::data::StoreWrite;
use crate::error_messages::storage::{DriverError, EvelynBaseError, EvelynDatabaseError};
use crate::model::todo_list::TodoListsModel;

verus! {

/// What is reported of keeping a new todo list.
pub fn insert_todo_list(written: StoreWrite) -> (failure: Option<EvelynDatabaseError>)
    ensures
        match written {
            StoreWrite::Done => failure is None,
            StoreWrite::Failed(e) => failure == Some(EvelynDatabaseError::InsertTodoList(e)),
            StoreWrite::NotADocument => failure == Some(
                EvelynDatabaseError::SerialisationFailed(EvelynBaseError::NothingElse),
            ),
        },
{
    match written {
        StoreWrite::Done => None,
        StoreWrite::Failed(e) => Some(EvelynDatabaseError::InsertTodoList(e)),
        StoreWrite::NotADocument => Some(
            EvelynDatabaseError::SerialisationFailed(EvelynBaseError::NothingElse),
        ),
    }
}

/// What is reported of adding an item to a todo list.
pub fn add_item_to_todo_list(written: StoreWrite) -> (failure: Option<EvelynDatabaseError>)
    ensures
        match written {
            StoreWrite::Done => failure is None,
            StoreWrite::Failed(e) => failure == Some(EvelynDatabaseError::AddItemToTodoList(e)),
            StoreWrite::NotADocument => failure == Some(
                EvelynDatabaseError::SerialisationFailed(EvelynBaseError::NothingElse),
            ),
        },
{
    match written {
        StoreWrite::Done => None,
        StoreWrite::Failed(e) => Some(EvelynDatabaseError::AddItemToTodoList(e)),
        StoreWrite::NotADocument => Some(
            EvelynDatabaseError::SerialisationFailed(EvelynBaseError::NothingElse),
        ),
    }
}

/// The todo lists of a user as the store gave them, or what is reported of
/// the driver's failure.
pub fn lookup_todo_lists(read: Result<Vec<TodoListsModel>, DriverError>) -> (found: Result<
    Vec<TodoListsModel>,
    EvelynDatabaseError,
>)
    ensures
        match read {
            Ok(lists) => found == Ok::<Vec<TodoListsModel>, EvelynDatabaseError>(lists),
            Err(e) => found == Err::<Vec<TodoListsModel>, EvelynDatabaseError>(
                EvelynDatabaseError::LookupTodoLists(e),
            ),
        },
{
    match read {
        Ok(lists) => Ok(lists),
        Err(e) => Err(EvelynDatabaseError::LookupTodoLists(e)),
    }
}

} // verus!
