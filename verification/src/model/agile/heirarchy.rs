//! Links between the parts of an agile project.

use vstd::prelude::*;
use crate::error_messages::service::ErrorEntry;
use crate::model::{reported_by, ErrorModel, RequestModel, ResponseModel};

verus! {

/// What a client sends to link one part of a project to another.
#[derive(Debug, Clone, PartialEq, Eq)]
pub struct MakeLinkRequestModel {
    pub token: String,
    pub from_type: String,
    pub from_id: String,
    pub to_type: String,
    pub to_id: String,
}

impl RequestModel for MakeLinkRequestModel {
    open spec fn session_token(&self) -> Seq<char> {
        self.token@
    }

    fn token(&self) -> (token: &String) {
        &self.token
    }
}

/// The answer to a request to make a link.
#[derive(Debug, Clone, PartialEq, Eq)]
pub struct MakeLinkResponseModel {
    pub error: Option<ErrorModel>,
}

impl ResponseModel for MakeLinkResponseModel {
    open spec fn reported(&self) -> Option<ErrorEntry> {
        reported_by(self.error)
    }

    open spec fn is_blank(&self) -> bool {
        true
    }

    fn failure(error: ErrorModel) -> (response: MakeLinkResponseModel) {
        MakeLinkResponseModel { error: Some(error) }
    }
}

} // verus!
