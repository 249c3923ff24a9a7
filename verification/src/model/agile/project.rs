//! Agile projects and who contributes to them.

use vstd::prelude::*;
use crate::error_messages::service::ErrorEntry;
use crate::model::{reported_by, ErrorModel, RequestModel, ResponseModel};

verus! {

/// What a client sends to create a project.
#[derive(Debug, Clone, PartialEq, Eq)]
pub struct ProjectAddRequestModel {
    pub token: String,
    pub name: String,
    pub short_name: String,
    pub description: String,
}

impl RequestModel for ProjectAddRequestModel {
    open spec fn session_token(&self) -> Seq<char> {
        self.token@
    }

    fn token(&self) -> (token: &String) {
        &self.token
    }
}

/// The answer to a request to create a project: its identifier, or the failure.
#[derive(Debug, Clone, PartialEq, Eq)]
pub struct ProjectAddResponseModel {
    pub project_id: Option<String>,
    pub error: Option<ErrorModel>,
}

impl ResponseModel for ProjectAddResponseModel {
    open spec fn reported(&self) -> Option<ErrorEntry> {
        reported_by(self.error)
    }

    open spec fn is_blank(&self) -> bool {
        self.project_id is None
    }

    fn failure(error: ErrorModel) -> (response: ProjectAddResponseModel) {
        ProjectAddResponseModel { project_id: None, error: Some(error) }
    }
}

/// What a client sends to add a user to a project.
#[derive(Debug, Clone, PartialEq, Eq)]
pub struct CreateContributorRequestModel {
    pub token: String,
    pub project_id: String,
    pub user_contributor_id: String,
}

impl RequestModel for CreateContributorRequestModel {
    open spec fn session_token(&self) -> Seq<char> {
        self.token@
    }

    fn token(&self) -> (token: &String) {
        &self.token
    }
}

/// The answer to a request to add a contributor.
#[derive(Debug, Clone, PartialEq, Eq)]
pub struct CreateContributorResponseModel {
    pub error: Option<ErrorModel>,
}

impl ResponseModel for CreateContributorResponseModel {
    open spec fn reported(&self) -> Option<ErrorEntry> {
        reported_by(self.error)
    }

    open spec fn is_blank(&self) -> bool {
        true
    }

    fn failure(error: ErrorModel) -> (response: CreateContributorResponseModel) {
        CreateContributorResponseModel { error: Some(error) }
    }
}

} // verus!
