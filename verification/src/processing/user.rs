//! The handlers of users.

use vstd::prelude::*;
use crate::error_messages::domain::EvelynCoreError;
use crate::error_messages::service::{EvelynServiceError, ServiceErrorKind};
use crate::model::{rejection, reports};
use crate::error_messages::storage::EvelynBaseError;
use crate::model::user::{CreateUserResponseModel, LogonUserResponseModel, SearchResponseModel};

verus! {

/// The failure that a client is told when a user could not be created: that
/// the user already exists where that is why, else that creating failed.
pub open spec fn create_user_failure(error: EvelynCoreError) -> ServiceErrorKind {
    match error {
        EvelynCoreError::WillNotCreateUserBecauseUserAlreadyExists(EvelynBaseError::NothingElse) =>
            ServiceErrorKind::UserAlreadyExists,
        _ => ServiceErrorKind::CreateUser,
    }
}

/// Answers a request to create a user.
pub fn create_user_processor(outcome: Result<Option<EvelynCoreError>, EvelynServiceError>) -> (response:
    CreateUserResponseModel)
    ensures
        match outcome {
            Ok(None) => response.error is None,
            Ok(Some(e)) => reports(response, create_user_failure(e)),
            Err(refusal) => reports(response, refusal.kind_of()),
        },
{
    match outcome {
        Ok(None) => CreateUserResponseModel { error: None },
        Ok(Some(e)) => {
            match e {
                EvelynCoreError::WillNotCreateUserBecauseUserAlreadyExists(
                    EvelynBaseError::NothingElse,
                ) => rejection(EvelynServiceError::UserAlreadyExists(e)),
                _ => rejection(EvelynServiceError::CreateUser(e)),
            }
        },
        Err(refusal) => rejection(refusal),
    }
}

/// The failure that a client is told when a logon did not succeed: that the
/// logon is invalid where the user is unknown or the password wrong, else
/// that logging on failed.
pub open spec fn logon_failure(error: EvelynCoreError) -> ServiceErrorKind {
    match error {
        EvelynCoreError::InvalidLogon(EvelynBaseError::NothingElse) => ServiceErrorKind::LogonUser,
        _ => ServiceErrorKind::FailedToLogonUser,
    }
}

/// Answers a logon.
pub fn logon_user_processor(
    outcome: Result<Result<LogonUserResponseModel, EvelynCoreError>, EvelynServiceError>,
) -> (response: LogonUserResponseModel)
    ensures
        match outcome {
            Ok(Ok(answer)) => response == answer,
            Ok(Err(e)) => reports(response, logon_failure(e)),
            Err(refusal) => reports(response, refusal.kind_of()),
        },
{
    match outcome {
        Ok(Ok(answer)) => answer,
        Ok(Err(e)) => {
            match e {
                EvelynCoreError::InvalidLogon(EvelynBaseError::NothingElse) => rejection(
                    EvelynServiceError::LogonUser(e),
                ),
                _ => rejection(EvelynServiceError::FailedToLogonUser(e)),
            }
        },
        Err(refusal) => rejection(refusal),
    }
}

/// Answers a search for users: what was found where the search ran and
/// succeeded, else the failure and no users.
pub fn search_processor(
    outcome: Result<Result<SearchResponseModel, EvelynCoreError>, EvelynServiceError>,
) -> (response: SearchResponseModel)
    ensures
        match outcome {
            Ok(Ok(answer)) => response == answer,
            Ok(Err(_)) => reports(response, ServiceErrorKind::SearchForUsers),
            Err(refusal) => reports(response, refusal.kind_of()),
        },
{
    match outcome {
        Ok(Ok(answer)) => answer,
        Ok(Err(e)) => rejection(EvelynServiceError::SearchForUsers(e)),
        Err(refusal) => rejection(refusal),
    }
}

} // verus!
