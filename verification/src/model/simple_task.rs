//! Simple tasks: a title, a description, a due date and whether it is done.

use vstd::prelude::*;
use crate::error_messages::service::ErrorEntry;
use crate::model::{reported_by, ErrorModel, RequestModel, ResponseModel};

verus! {

/// What a client sends to create a task.
#[derive(Debug, Clone, PartialEq, Eq)]
pub struct CreateSimpleTaskRequestModel {
    pub token: String,
    pub title: String,
    pub description: String,
    pub due_date: String,
}

impl RequestModel for CreateSimpleTaskRequestModel {
    open spec fn session_token(&self) -> Seq<char> {
        self.token@
    }

    fn token(&self) -> (token: &String) {
        &self.token
    }
}

/// The answer to a request to create a task: its identifier, or the failure.
#[derive(Debug, Clone, PartialEq, Eq)]
pub struct CreateSimpleTaskResponseModel {
    pub task_id: Option<String>,
    pub error: Option<ErrorModel>,
}

impl ResponseModel for CreateSimpleTaskResponseModel {
    open spec fn reported(&self) -> Option<ErrorEntry> {
        reported_by(self.error)
    }

    open spec fn is_blank(&self) -> bool {
        self.task_id is None
    }

    fn failure(error: ErrorModel) -> (response: CreateSimpleTaskResponseModel) {
        CreateSimpleTaskResponseModel { task_id: None, error: Some(error) }
    }
}

/// A task as stored.
#[derive(Debug, Clone, PartialEq, Eq)]
pub struct SimpleTaskModel {
    pub user_id: String,
    pub task_id: String,
    pub title: String,
    pub description: String,
    pub due_date: String,
    pub completed: bool,
}

/// What a client sends to list its tasks. A limit of zero means no limit.
#[derive(Debug, Clone, PartialEq, Eq)]
pub struct LookupSimpleTaskRequestModel {
    pub token: String,
    pub limit: u32,
    pub show_completed: bool,
}

impl RequestModel for LookupSimpleTaskRequestModel {
    open spec fn session_token(&self) -> Seq<char> {
        self.token@
    }

    fn token(&self) -> (token: &String) {
        &self.token
    }
}

/// The question put to the store when tasks are listed.
#[derive(Debug, Clone, PartialEq, Eq)]
pub struct SimpleTaskLookupModel {
    pub user_id: String,
    pub limit: u32,
    pub show_completed: bool,
}

/// The tasks of a user, or the failure.
#[derive(Debug, Clone, PartialEq, Eq)]
pub struct LookupSimpleTaskResponseModel {
    pub simple_tasks: Vec<SimpleTaskExternalModel>,
    pub error: Option<ErrorModel>,
}

impl ResponseModel for LookupSimpleTaskResponseModel {
    open spec fn reported(&self) -> Option<ErrorEntry> {
        reported_by(self.error)
    }

    open spec fn is_blank(&self) -> bool {
        self.simple_tasks@.len() == 0
    }

    fn failure(error: ErrorModel) -> (response: LookupSimpleTaskResponseModel) {
        LookupSimpleTaskResponseModel { simple_tasks: Vec::new(), error: Some(error) }
    }
}

/// A task as a client is told.
#[derive(Debug, Clone, PartialEq, Eq)]
pub struct SimpleTaskExternalModel {
    pub task_id: String,
    pub title: String,
    pub description: String,
    pub due_date: String,
    pub completed: bool,
}

/// What a client sends to change a task.
#[derive(Debug, Clone, PartialEq, Eq)]
pub struct UpdateSimpleTaskRequestModel {
    pub token: String,
    pub task_id: String,
    pub new_title: String,
    pub new_description: String,
    pub new_due_date: String,
    pub new_completed: bool,
}

impl RequestModel for UpdateSimpleTaskRequestModel {
    open spec fn session_token(&self) -> Seq<char> {
        self.token@
    }

    fn token(&self) -> (token: &String) {
        &self.token
    }
}

/// The change put to the store when a task is updated.
#[derive(Debug, Clone, PartialEq, Eq)]
pub struct SimpleTaskUpdateModel {
    pub user_id: String,
    pub task_id: String,
    pub title: String,
    pub description: String,
    pub due_date: String,
    pub completed: bool,
}

/// The answer to a request to change a task.
#[derive(Debug, Clone, PartialEq, Eq)]
pub struct UpdateSimpleTaskResponseModel {
    pub error: Option<ErrorModel>,
}

impl ResponseModel for UpdateSimpleTaskResponseModel {
    open spec fn reported(&self) -> Option<ErrorEntry> {
        reported_by(self.error)
    }

    open spec fn is_blank(&self) -> bool {
        true
    }

    fn failure(error: ErrorModel) -> (response: UpdateSimpleTaskResponseModel) {
        UpdateSimpleTaskResponseModel { error: Some(error) }
    }
}

/// What a client sends to remove a task.
#[derive(Debug, Clone, PartialEq, Eq)]
pub struct RemoveSimpleTaskRequestModel {
    pub token: String,
    pub task_id: String,
}

impl RequestModel for RemoveSimpleTaskRequestModel {
    open spec fn session_token(&self) -> Seq<char> {
        self.token@
    }

    fn token(&self) -> (token: &String) {
        &self.token
    }
}

/// The answer to a request to remove a task.
#[derive(Debug, Clone, PartialEq, Eq)]
pub struct RemoveSimpleTaskResponseModel {
    pub error: Option<ErrorModel>,
}

impl ResponseModel for RemoveSimpleTaskResponseModel {
    open spec fn reported(&self) -> Option<ErrorEntry> {
        reported_by(self.error)
    }

    open spec fn is_blank(&self) -> bool {
        true
    }

    fn failure(error: ErrorModel) -> (response: RemoveSimpleTaskResponseModel) {
        RemoveSimpleTaskResponseModel { error: Some(error) }
    }
}

} // verus!
