//! The storage calls of agile projects.

pub mod sprint;
