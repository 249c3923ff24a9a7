//! The handler of links between the parts of an agile project.

use vstd::prelude::*;
use crate::error_messages::domain::EvelynCoreError;
use crate::error_messages::service::{EvelynServiceError, ServiceErrorKind};
use crate::model::{rejection, reports};
use crate::model::agile::heirarchy::MakeLinkResponseModel;

verus! {

/// Answers a request to link one part of a project to another.
pub fn link_processor(
    outcome: Result<Result<MakeLinkResponseModel, EvelynCoreError>, EvelynServiceError>,
) -> (response: MakeLinkResponseModel)
    ensures
        match outcome {
            Ok(Ok(answer)) => response == answer,
            Ok(Err(_)) => reports(response, ServiceErrorKind::MakeAgileHeirarchyLink),
            Err(refusal) => reports(response, refusal.kind_of()),
        },
{
    match outcome {
        Ok(Ok(answer)) => answer,
        Ok(Err(e)) => rejection(EvelynServiceError::MakeAgileHeirarchyLink(e)),
        Err(refusal) => rejection(refusal),
    }
}

} // verus!
