//! Stories of an agile project.

use vstd::prelude::*;
use crate::model::ErrorModel;

verus! {

/// What a client sends to create a story.
#[derive(Debug, Clone, PartialEq, Eq)]
pub struct CreateStoryRequestModel {
    pub token: String,
    pub project_id: String,
    pub title: String,
    pub description: Option<String>,
}

/// The answer to a request to create a story: its identifier, or the failure.
#[derive(Debug, Clone, PartialEq, Eq)]
pub struct CreateStoryResponseModel {
    pub error: Option<ErrorModel>,
    pub story_id: Option<String>,
}

/// A story as stored.
#[derive(Debug, Clone, PartialEq, Eq)]
pub struct StoryModel {
    pub story_id: String,
    pub created_by_user_id: String,
    pub date_created: String,
    pub project_id: String,
    pub title: String,
    pub description: String,
}

/// What a client sends to read one story.
#[derive(Debug, Clone, PartialEq, Eq)]
pub struct LookupRequestModel {
    pub token: String,
    pub project_id: String,
    pub story_id: String,
}

/// One story, or the failure.
#[derive(Debug, Clone, PartialEq, Eq)]
pub struct LookupResponseModel {
    pub error: Option<ErrorModel>,
    pub story: Option<StoryExternalModel>,
}

/// A story with its tasks, as a client is told.
#[derive(Debug, Clone, PartialEq, Eq)]
pub struct StoryExternalModel {
    pub story_id: String,
    pub project_id: String,
    pub title: String,
    pub description: String,
    pub tasks: Vec<TaskExternalModel>,
}

/// A task of a story, as a client is told.
#[derive(Debug, Clone, PartialEq, Eq)]
pub struct TaskExternalModel {
    pub task_id: String,
    pub title: String,
}

/// What a client sends to read the backlog of a project.
#[derive(Debug, Clone, PartialEq, Eq)]
pub struct LookupBacklogRequestModel {
    pub token: String,
    pub project_id: String,
}

/// The stories in the backlog, or the failure.
#[derive(Debug, Clone, PartialEq, Eq)]
pub struct LookupBacklogResponseModel {
    pub stories: Vec<StoryExternalModel>,
    pub error: Option<ErrorModel>,
}

} // verus!
