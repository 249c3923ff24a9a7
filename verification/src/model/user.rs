//! Users: creating one, logging on, searching.

use vstd::prelude::*;
use crate::error_messages::service::ErrorEntry;
use crate::model::{reported_by, ErrorModel, RequestModel, ResponseModel};

verus! {

/// What a client sends to create a user.
#[derive(Debug, Clone, PartialEq, Eq)]
pub struct CreateUserRequestModel {
    pub user_name: String,
    pub email_address: String,
    pub password: String,
}

/// The answer to a request to create a user.
#[derive(Debug, Clone, PartialEq, Eq)]
pub struct CreateUserResponseModel {
    pub error: Option<ErrorModel>,
}

impl ResponseModel for CreateUserResponseModel {
    open spec fn reported(&self) -> Option<ErrorEntry> {
        reported_by(self.error)
    }

    open spec fn is_blank(&self) -> bool {
        true
    }

    fn failure(error: ErrorModel) -> (response: CreateUserResponseModel) {
        CreateUserResponseModel { error: Some(error) }
    }
}

/// What a client sends to log on.
#[derive(Debug, Clone, PartialEq, Eq)]
pub struct LogonUserRequestModel {
    pub email_address: String,
    pub password: String,
}

/// The answer to a logon: the session token, or the failure.
#[derive(Debug, Clone, PartialEq, Eq)]
pub struct LogonUserResponseModel {
    pub token: Option<String>,
    pub error: Option<ErrorModel>,
}

impl ResponseModel for LogonUserResponseModel {
    open spec fn reported(&self) -> Option<ErrorEntry> {
        reported_by(self.error)
    }

    open spec fn is_blank(&self) -> bool {
        self.token is None
    }

    fn failure(error: ErrorModel) -> (response: LogonUserResponseModel) {
        LogonUserResponseModel { token: None, error: Some(error) }
    }
}

/// A user as stored.
#[derive(Debug, Clone, PartialEq, Eq)]
pub struct UserModel {
    pub user_id: String,
    pub user_name: String,
    pub email_address: String,
    pub password: String,
}

/// What a client sends to search for users by name.
#[derive(Debug, Clone, PartialEq, Eq)]
pub struct SearchRequestModel {
    pub token: String,
    pub query: String,
}

impl RequestModel for SearchRequestModel {
    open spec fn session_token(&self) -> Seq<char> {
        self.token@
    }

    fn token(&self) -> (token: &String) {
        &self.token
    }
}

/// The users that a search found, or the failure.
#[derive(Debug, Clone, PartialEq, Eq)]
pub struct SearchResponseModel {
    pub search_results: Vec<SearchResultExternal>,
    pub error: Option<ErrorModel>,
}

impl ResponseModel for SearchResponseModel {
    open spec fn reported(&self) -> Option<ErrorEntry> {
        reported_by(self.error)
    }

    open spec fn is_blank(&self) -> bool {
        self.search_results@.len() == 0
    }

    fn failure(error: ErrorModel) -> (response: SearchResponseModel) {
        SearchResponseModel { search_results: Vec::new(), error: Some(error) }
    }
}

/// One user found by a search, as the store gives it.
#[derive(Debug, Clone, PartialEq, Eq)]
pub struct SearchResult {
    pub user_id: String,
    pub user_name: String,
}

/// One user found by a search, as a client is told.
#[derive(Debug, Clone, PartialEq, Eq)]
pub struct SearchResultExternal {
    pub user_id: String,
    pub user_name: String,
}

} // verus!
