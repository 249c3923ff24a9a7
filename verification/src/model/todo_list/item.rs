//! The items of a todo list.

use vstd::prelude::*;
use crate::error_messages::service::ErrorEntry;
use crate::model::{reported_by, ErrorModel, RequestModel, ResponseModel};

verus! {

/// An item of a todo list as stored.
#[derive(Debug, Clone, PartialEq, Eq)]
pub struct TodoListItemModel {
    pub text: String,
    pub is_done: bool,
}

/// An item of a todo list, as a client is told.
#[derive(Debug, Clone, PartialEq, Eq)]
pub struct TodoListItemExternalModel {
    pub text: String,
    pub is_done: bool,
}

/// What a client sends to add an item to a list.
#[derive(Debug, Clone, PartialEq, Eq)]
pub struct AddItemTodoListRequestModel {
    pub token: String,
    pub todo_list_id: String,
    pub todo_list_item: TodoListItemExternalModel,
}

impl RequestModel for AddItemTodoListRequestModel {
    open spec fn session_token(&self) -> Seq<char> {
        self.token@
    }

    fn token(&self) -> (token: &String) {
        &self.token
    }
}

/// The answer to a request to add an item.
#[derive(Debug, Clone, PartialEq, Eq)]
pub struct AddItemTodoListResponseModel {
    pub error: Option<ErrorModel>,
}

impl ResponseModel for AddItemTodoListResponseModel {
    open spec fn reported(&self) -> Option<ErrorEntry> {
        reported_by(self.error)
    }

    open spec fn is_blank(&self) -> bool {
        true
    }

    fn failure(error: ErrorModel) -> (response: AddItemTodoListResponseModel) {
        AddItemTodoListResponseModel { error: Some(error) }
    }
}

/// What a client sends to mark an item done or not done.
#[derive(Debug, Clone, PartialEq, Eq)]
pub struct UpdateItemTodoListRequestModel {
    pub token: String,
    pub todo_list_id: String,
    pub item_id: u32,
    pub is_done: bool,
}

impl RequestModel for UpdateItemTodoListRequestModel {
    open spec fn session_token(&self) -> Seq<char> {
        self.token@
    }

    fn token(&self) -> (token: &String) {
        &self.token
    }
}

/// The answer to a request to change an item.
#[derive(Debug, Clone, PartialEq, Eq)]
pub struct UpdateItemTodoListResponseModel {
    pub error: Option<ErrorModel>,
}

impl ResponseModel for UpdateItemTodoListResponseModel {
    open spec fn reported(&self) -> Option<ErrorEntry> {
        reported_by(self.error)
    }

    open spec fn is_blank(&self) -> bool {
        true
    }

    fn failure(error: ErrorModel) -> (response: UpdateItemTodoListResponseModel) {
        UpdateItemTodoListResponseModel { error: Some(error) }
    }
}

} // verus!
