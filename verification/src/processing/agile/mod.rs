//! The handlers of agile projects.

pub mod heirarchy;
pub mod project;
