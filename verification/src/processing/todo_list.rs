//! The handlers of todo lists.

use vstd::prelude::*;
use crate::error_messages::domain::EvelynCoreError;
use crate::error_messages::service::{EvelynServiceError, ServiceErrorKind};
use crate::model::{rejection, reports};
use crate::model::todo_list::item::{AddItemTodoListResponseModel, UpdateItemTodoListResponseModel};
use crate::model::todo_list::{
    CreateTodoListResponseModel,
    LookupTodoListResponseModel,
    LookupTodoListsResponseModel,
};

verus! {

/// Answers a request to create a todo list.
pub fn create_todo_list_processor(
    outcome: Result<Result<CreateTodoListResponseModel, EvelynCoreError>, EvelynServiceError>,
) -> (response: CreateTodoListResponseModel)
    ensures
        match outcome {
            Ok(Ok(answer)) => response == answer,
            Ok(Err(_)) => reports(response, ServiceErrorKind::CreateTodoList),
            Err(refusal) => reports(response, refusal.kind_of()),
        },
{
    match outcome {
        Ok(Ok(answer)) => answer,
        Ok(Err(e)) => rejection(EvelynServiceError::CreateTodoList(e)),
        Err(refusal) => rejection(refusal),
    }
}

/// Answers a request to add an item to a todo list.
pub fn add_item_todo_list_processor(outcome: Result<Option<EvelynCoreError>, EvelynServiceError>) -> (response:
    AddItemTodoListResponseModel)
    ensures
        match outcome {
            Ok(None) => response.error is None,
            Ok(Some(_)) => reports(response, ServiceErrorKind::AddItemToTodoList),
            Err(refusal) => reports(response, refusal.kind_of()),
        },
{
    match outcome {
        Ok(None) => AddItemTodoListResponseModel { error: None },
        Ok(Some(e)) => rejection(EvelynServiceError::AddItemToTodoList(e)),
        Err(refusal) => rejection(refusal),
    }
}

/// Answers a request to list todo lists. A failure is told in the shape of
/// this answer, as every failure is: without lists.
pub fn lookup_todo_lists_processor(
    outcome: Result<Result<LookupTodoListsResponseModel, EvelynCoreError>, EvelynServiceError>,
) -> (response: LookupTodoListsResponseModel)
    ensures
        match outcome {
            Ok(Ok(answer)) => response == answer,
            Ok(Err(_)) => reports(response, ServiceErrorKind::LookupTodoLists),
            Err(refusal) => reports(response, refusal.kind_of()),
        },
{
    match outcome {
        Ok(Ok(answer)) => answer,
        Ok(Err(e)) => rejection(EvelynServiceError::LookupTodoLists(e)),
        Err(refusal) => rejection(refusal),
    }
}

/// Answers a request to read one todo list.
pub fn lookup_todo_list_processor(
    outcome: Result<Result<LookupTodoListResponseModel, EvelynCoreError>, EvelynServiceError>,
) -> (response: LookupTodoListResponseModel)
    ensures
        match outcome {
            Ok(Ok(answer)) => response == answer,
            Ok(Err(_)) => reports(response, ServiceErrorKind::LookupTodoList),
            Err(refusal) => reports(response, refusal.kind_of()),
        },
{
    match outcome {
        Ok(Ok(answer)) => answer,
        Ok(Err(e)) => rejection(EvelynServiceError::LookupTodoList(e)),
        Err(refusal) => rejection(refusal),
    }
}

/// Answers a request to change an item of a todo list.
pub fn update_item_todo_list_processor(outcome: Result<Option<EvelynCoreError>, EvelynServiceError>) -> (response:
    UpdateItemTodoListResponseModel)
    ensures
        match outcome {
            Ok(None) => response.error is None,
            Ok(Some(_)) => reports(response, ServiceErrorKind::UpdateTodoListItem),
            Err(refusal) => reports(response, refusal.kind_of()),
        },
{
    match outcome {
        Ok(None) => UpdateItemTodoListResponseModel { error: None },
        Ok(Some(e)) => rejection(EvelynServiceError::UpdateTodoListItem(e)),
        Err(refusal) => rejection(refusal),
    }
}

} // verus!
