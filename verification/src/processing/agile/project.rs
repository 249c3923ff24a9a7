//! The handlers of agile projects and their contributors.

use vstd::prelude::*;
use crate::error_messages::domain::EvelynCoreError;
use crate::error_messages::service::{EvelynServiceError, ServiceErrorKind};
use crate::model::{rejection, reports};
use crate::model::agile::project::{CreateContributorResponseModel, ProjectAddResponseModel};

verus! {

/// Answers a request to create a project.
pub fn create_processor(
    outcome: Result<Result<ProjectAddResponseModel, EvelynCoreError>, EvelynServiceError>,
) -> (response: ProjectAddResponseModel)
    ensures
        match outcome {
            Ok(Ok(answer)) => response == answer,
            Ok(Err(_)) => reports(response, ServiceErrorKind::CreateAgileProject),
            Err(refusal) => reports(response, refusal.kind_of()),
        },
{
    match outcome {
        Ok(Ok(answer)) => answer,
        Ok(Err(e)) => rejection(EvelynServiceError::CreateAgileProject(e)),
        Err(refusal) => rejection(refusal),
    }
}

/// Answers a request to add a user to a project.
pub fn add_contributor_processor(outcome: Result<Option<EvelynCoreError>, EvelynServiceError>) -> (response:
    CreateContributorResponseModel)
    ensures
        match outcome {
            Ok(None) => response.error is None,
            Ok(Some(_)) => reports(response, ServiceErrorKind::AddUserContributorToAgileProject),
            Err(refusal) => reports(response, refusal.kind_of()),
        },
{
    match outcome {
        Ok(None) => CreateContributorResponseModel { error: None },
        Ok(Some(e)) => rejection(EvelynServiceError::AddUserContributorToAgileProject(e)),
        Err(refusal) => rejection(refusal),
    }
}

} // verus!
