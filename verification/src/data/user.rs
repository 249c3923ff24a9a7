//! Storing and reading users.

use vstd::prelude::*;
use crate::data::StoreWrite;
use crate::error_messages::storage::{DriverError, EvelynBaseError, EvelynDatabaseError};
use crate::model::user::{SearchResult, UserModel};

verus! {

/// What is reported of keeping a new user.
pub fn insert_user(written: StoreWrite) -> (failure: Option<EvelynDatabaseError>)
    ensures
        match written {
            StoreWrite::Done => failure is None,
            StoreWrite::Failed(e) => failure == Some(EvelynDatabaseError::InsertUser(e)),
            StoreWrite::NotADocument => failure == Some(
                EvelynDatabaseError::SerialisationFailed(EvelynBaseError::NothingElse),
            ),
        },
{
    match written {
        StoreWrite::Done => None,
        StoreWrite::Failed(e) => Some(EvelynDatabaseError::InsertUser(e)),
        StoreWrite::NotADocument => Some(
            EvelynDatabaseError::SerialisationFailed(EvelynBaseError::NothingElse),
        ),
    }
}

/// The user stored under an email address, if there is one, or what is
/// reported of the driver's failure.
pub fn find_user(read: Result<Option<UserModel>, DriverError>) -> (found: Result<
    Option<UserModel>,
    EvelynDatabaseError,
>)
    ensures
        match read {
            Ok(user) => found == Ok::<Option<UserModel>, EvelynDatabaseError>(user),
            Err(e) => found == Err::<Option<UserModel>, EvelynDatabaseError>(
                EvelynDatabaseError::LookupUser(e),
            ),
        },
{
    match read {
        Ok(user) => Ok(user),
        Err(e) => Err(EvelynDatabaseError::LookupUser(e)),
    }
}

/// The users whose names match a search as the store gave them, or what is
/// reported of the driver's failure.
pub fn search_for_users(read: Result<Vec<SearchResult>, DriverError>) -> (found: Result<
    Vec<SearchResult>,
    EvelynDatabaseError,
>)
    ensures
        match read {
            Ok(results) => found == Ok::<Vec<SearchResult>, EvelynDatabaseError>(results),
            Err(e) => found == Err::<Vec<SearchResult>, EvelynDatabaseError>(
                EvelynDatabaseError::SearchForUsers(e),
            ),
        },
{
    match read {
        Ok(results) => Ok(results),
        Err(e) => Err(EvelynDatabaseError::SearchForUsers(e)),
    }
}

} // verus!
