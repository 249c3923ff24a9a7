//! The handlers of simple tasks.

use vstd::prelude::*;
use crate::error_messages::domain::EvelynCoreError;
use crate::error_messages::service::{EvelynServiceError, ServiceErrorKind};
use crate::model::{rejection, reports};
use crate::model::simple_task::{
    CreateSimpleTaskResponseModel,
    LookupSimpleTaskResponseModel,
    RemoveSimpleTaskResponseModel,
    UpdateSimpleTaskResponseModel,
};

verus! {

/// Answers a request to create a task: the answer of the operation where it
/// ran and succeeded, else the failure and nothing more.
pub fn create_simple_task_processor(
    outcome: Result<Result<CreateSimpleTaskResponseModel, EvelynCoreError>, EvelynServiceError>,
) -> (response: CreateSimpleTaskResponseModel)
    ensures
        match outcome {
            Ok(Ok(answer)) => response == answer,
            Ok(Err(_)) => reports(response, ServiceErrorKind::FailedToCreateSimpleTask),
            Err(refusal) => reports(response, refusal.kind_of()),
        },
{
    match outcome {
        Ok(Ok(answer)) => answer,
        Ok(Err(e)) => rejection(EvelynServiceError::FailedToCreateSimpleTask(e)),
        Err(refusal) => rejection(refusal),
    }
}

/// Answers a request to list tasks: the listing where the operation ran and
/// succeeded, else the failure and an empty list.
pub fn lookup_simple_task_processor(
    outcome: Result<Result<LookupSimpleTaskResponseModel, EvelynCoreError>, EvelynServiceError>,
) -> (response: LookupSimpleTaskResponseModel)
    ensures
        match outcome {
            Ok(Ok(answer)) => response == answer,
            Ok(Err(_)) => reports(response, ServiceErrorKind::FailedToLookupSimpleTask),
            Err(refusal) => reports(response, refusal.kind_of()),
        },
{
    match outcome {
        Ok(Ok(answer)) => answer,
        Ok(Err(e)) => rejection(EvelynServiceError::FailedToLookupSimpleTask(e)),
        Err(refusal) => rejection(refusal),
    }
}

/// Answers a request to change a task.
pub fn update_simple_task_processor(outcome: Result<Option<EvelynCoreError>, EvelynServiceError>) -> (response:
    UpdateSimpleTaskResponseModel)
    ensures
        match outcome {
            Ok(None) => response.error is None,
            Ok(Some(_)) => reports(response, ServiceErrorKind::FailedToUpdateSimpleTask),
            Err(refusal) => reports(response, refusal.kind_of()),
        },
{
    match outcome {
        Ok(None) => UpdateSimpleTaskResponseModel { error: None },
        Ok(Some(e)) => rejection(EvelynServiceError::FailedToUpdateSimpleTask(e)),
        Err(refusal) => rejection(refusal),
    }
}

/// Answers a request to remove a task.
pub fn remove_processor(outcome: Result<Option<EvelynCoreError>, EvelynServiceError>) -> (response:
    RemoveSimpleTaskResponseModel)
    ensures
        match outcome {
            Ok(None) => response.error is None,
            Ok(Some(_)) => reports(response, ServiceErrorKind::FailedToRemoveSimpleTask),
            Err(refusal) => reports(response, refusal.kind_of()),
        },
{
    match outcome {
        Ok(None) => RemoveSimpleTaskResponseModel { error: None },
        Ok(Some(e)) => rejection(EvelynServiceError::FailedToRemoveSimpleTask(e)),
        Err(refusal) => rejection(refusal),
    }
}

} // verus!
