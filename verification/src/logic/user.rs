//! Users: creating one, logging on, searching by name.

use vstd::prelude::*;
use crate::error_messages::domain::EvelynCoreError;
use crate::error_messages::storage::{EvelynBaseError, EvelynDatabaseError};
use crate::identifiers::{is_identifier, random_identifier};
use crate::model::user::{
    CreateUserRequestModel,
    LogonUserRequestModel,
    LogonUserResponseModel,
    SearchResponseModel,
    SearchResult,
    SearchResultExternal,
    UserModel,
};
use crate::processing::ProcessorData;
use crate::session::{create_session_token, issued, SessionClaims};

verus! {

/// The record of a new user: what was asked for, under the given identifier.
pub open spec fn registered(model: CreateUserRequestModel, user_id: String) -> UserModel {
    UserModel {
        user_id,
        user_name: model.user_name,
        email_address: model.email_address,
        password: model.password,
    }
}

/// Makes the record of a new user under the given identifier.
pub fn new_user(model: CreateUserRequestModel, user_id: String) -> (user: UserModel)
    ensures
        user == registered(model, user_id),
{
    UserModel {
        user_id,
        user_name: model.user_name,
        email_address: model.email_address,
        password: model.password,
    }
}

/// Decides on a request to create a user, from what the store answered when
/// asked for a user with that email address. Where there is none yet, the
/// record to keep is made, under a fresh identifier; where there is one, or
/// the store could not say, the request is refused.
pub fn create_user(
    model: CreateUserRequestModel,
    existing: Result<Option<UserModel>, EvelynDatabaseError>,
) -> (decision: Result<UserModel, EvelynCoreError>)
    ensures
        match existing {
            Ok(None) => decision matches Ok(user) && user == registered(model, user.user_id)
                && is_identifier(user.user_id@),
            Ok(Some(_)) => decision == Err::<UserModel, EvelynCoreError>(
                EvelynCoreError::WillNotCreateUserBecauseUserAlreadyExists(
                    EvelynBaseError::NothingElse,
                ),
            ),
            Err(e) => decision == Err::<UserModel, EvelynCoreError>(
                EvelynCoreError::CannotCheckIfUserExistsSoWillNotCreateNewUser(e),
            ),
        },
{
    match existing {
        Ok(user) => {
            if user.is_some() {
                Err(
                    EvelynCoreError::WillNotCreateUserBecauseUserAlreadyExists(
                        EvelynBaseError::NothingElse,
                    ),
                )
            } else {
                Ok(new_user(model, random_identifier()))
            }
        },
        Err(e) => Err(EvelynCoreError::CannotCheckIfUserExistsSoWillNotCreateNewUser(e)),
    }
}

/// What creating a user comes to, from the decision and, where the record
/// was to be kept, from what the store said of keeping it: a refusal stands
/// as it is, a record that could not be kept is a failure to create the
/// user, and a record that was kept is no failure.
pub fn user_created(kept: Result<Option<EvelynDatabaseError>, EvelynCoreError>) -> (failure: Option<
    EvelynCoreError,
>)
    ensures
        match kept {
            Err(refusal) => failure == Some(refusal),
            Ok(Some(e)) => failure == Some(EvelynCoreError::FailedToCreateUser(e)),
            Ok(None) => failure is None,
        },
{
    match kept {
        Err(refusal) => Some(refusal),
        Ok(Some(e)) => Some(EvelynCoreError::FailedToCreateUser(e)),
        Ok(None) => None,
    }
}

/// What a logon comes to, given what the store found under the email
/// address.
pub open spec fn logon_outcome(
    model: LogonUserRequestModel,
    found: Result<Option<UserModel>, EvelynDatabaseError>,
    processor_data: ProcessorData,
    issued_at: i64,
) -> Result<SessionClaims, EvelynCoreError> {
    match found {
        Ok(Some(user)) => if user.password@ == model.password@ {
            Ok(issued(processor_data.server_session_token, user, issued_at))
        } else {
            Err(EvelynCoreError::InvalidLogon(EvelynBaseError::NothingElse))
        },
        Ok(None) => Err(EvelynCoreError::InvalidLogon(EvelynBaseError::NothingElse)),
        Err(e) => Err(EvelynCoreError::FailedToLogonUser(e)),
    }
}

/// Decides on a logon, from what the store found under the email address.
/// A user who gives the stored password gets the claims of a session with
/// this server run; an unknown user and a wrong password are told the same,
/// that the logon is invalid; a store that could not answer is a failure of
/// another kind.
pub fn logon_user(
    model: LogonUserRequestModel,
    found: Result<Option<UserModel>, EvelynDatabaseError>,
    processor_data: &ProcessorData,
    issued_at: i64,
) -> (outcome: Result<SessionClaims, EvelynCoreError>)
    ensures
        outcome == logon_outcome(model, found, *processor_data, issued_at),
{
    match found {
        Ok(user) => {
            match user {
                Some(user) => {
                    if user.password == model.password {
                        Ok(
                            create_session_token(
                                &processor_data.server_session_token,
                                &user,
                                issued_at,
                            ),
                        )
                    } else {
                        Err(EvelynCoreError::InvalidLogon(EvelynBaseError::NothingElse))
                    }
                },
                None => Err(EvelynCoreError::InvalidLogon(EvelynBaseError::NothingElse)),
            }
        },
        Err(e) => Err(EvelynCoreError::FailedToLogonUser(e)),
    }
}

/// The answer to a logon that succeeded: the signed token, and no failure.
pub fn logged_on(token: String) -> (response: LogonUserResponseModel)
    ensures
        response == (LogonUserResponseModel { token: Some(token), error: None }),
{
    LogonUserResponseModel { token: Some(token), error: None }
}

/// One found user as a client is told of it.
pub open spec fn disclosed(result: SearchResult) -> SearchResultExternal {
    SearchResultExternal { user_id: result.user_id, user_name: result.user_name }
}

/// The answer to a search for users, from what the store found: the users
/// in the order in which the store gave them, or the failure of the search.
pub fn search_for_users(found: Result<Vec<SearchResult>, EvelynDatabaseError>) -> (answer: Result<
    SearchResponseModel,
    EvelynCoreError,
>)
    ensures
        match found {
            Ok(results) => answer matches Ok(response) && response.error is None
                && response.search_results@ == results@.map_values(
                |result: SearchResult| disclosed(result),
            ),
            Err(e) => answer == Err::<SearchResponseModel, EvelynCoreError>(
                EvelynCoreError::FailedToSearchForUsers(e),
            ),
        },
{
    match found {
        Ok(results) => {
            let mut search_results: Vec<SearchResultExternal> = Vec::new();
            let mut i: usize = 0;
            while i < results.len()
                invariant
                    i <= results@.len(),
                    search_results@ == results@.take(i as int).map_values(
                        |result: SearchResult| disclosed(result),
                    ),
                decreases results@.len() - i,
            {
                let result: &SearchResult = &results[i];
                search_results.push(
                    SearchResultExternal {
                        user_id: result.user_id.clone(),
                        user_name: result.user_name.clone(),
                    },
                );
                proof {
                    assert(results@.take(i + 1).map_values(|result: SearchResult| disclosed(result))
                        =~= results@.take(i as int).map_values(
                        |result: SearchResult| disclosed(result),
                    ).push(disclosed(results@[i as int])));
                }
                i = i + 1;
            }
            proof {
                assert(results@.take(results@.len() as int) =~= results@);
            }
            Ok(SearchResponseModel { search_results, error: None })
        },
        Err(e) => Err(EvelynCoreError::FailedToSearchForUsers(e)),
    }
}

} // verus!
