//! The operations of the assistant, each as what it decides from what the
//! store answered.

pub mod schedule;
pub mod simple_task;
pub mod user;
