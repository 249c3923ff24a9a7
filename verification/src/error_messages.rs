//! The three tiers of failure, innermost first: storage, domain, service.

pub mod domain;
pub mod service;
pub mod storage;

pub use domain::EvelynCoreError;
pub use service::{code_and_message, ErrorEntry, EvelynServiceError, ServiceErrorKind};
pub use storage::{occurs_in, DriverError, EvelynBaseError, EvelynDatabaseError};
