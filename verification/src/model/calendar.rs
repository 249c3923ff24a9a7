//! Calendar events.

use vstd::prelude::*;
use crate::model::ErrorModel;

verus! {

/// What a client sends to add an event.
#[derive(Debug, Clone, PartialEq, Eq)]
pub struct CalendarAddEventRequestModel {
    pub token: String,
    pub event_begin: String,
    pub event_end: String,
    pub title: String,
}

/// The answer to a request to add an event.
#[derive(Debug, Clone, PartialEq, Eq)]
pub struct CalendarAddEventResponseModel {
    pub error: Option<ErrorModel>,
}

/// An event as stored.
#[derive(Debug, Clone, PartialEq, Eq)]
pub struct CalendarEventModel {
    pub user_id: String,
    pub event_id: String,
    pub event_begin: String,
    pub event_end: String,
    pub title: String,
}

/// What a client sends to read the events of a span of time.
#[derive(Debug, Clone, PartialEq, Eq)]
pub struct CalendarLookupRequestModel {
    pub token: String,
    pub time_range_begin: String,
    pub time_range_end: String,
}

/// The answer to a request to read events.
#[derive(Debug, Clone, PartialEq, Eq)]
pub struct CalendarLookupResponseModel {
    pub error: ErrorModel,
}

} // verus!
