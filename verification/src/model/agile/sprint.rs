//! Sprints of an agile project.

use vstd::prelude::*;

verus! {

/// A sprint as stored.
#[derive(Debug, Clone, PartialEq, Eq)]
pub struct SprintModel {
    pub sprint_id: String,
    pub created_by_user_id: String,
    pub date_created: String,
    pub project_id: String,
    pub title: String,
    pub start_date: String,
    pub end_date: String,
}

} // verus!
