//! Agile projects: stories, tasks, sprints and the links between them.

pub mod heirarchy;
pub mod project;
pub mod sprint;
pub mod story;
