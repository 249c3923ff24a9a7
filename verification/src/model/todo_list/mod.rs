//! Todo lists.

pub mod item;

use vstd::prelude::*;
use crate::error_messages::service::ErrorEntry;
use crate::model::{reported_by, ErrorModel, RequestModel, ResponseModel};

verus! {

/// What a client sends to create a todo list.
#[derive(Debug, Clone, PartialEq, Eq)]
pub struct CreateTodoListRequestModel {
    pub token: String,
    pub title: String,
}

impl RequestModel for CreateTodoListRequestModel {
    open spec fn session_token(&self) -> Seq<char> {
        self.token@
    }

    fn token(&self) -> (token: &String) {
        &self.token
    }
}

/// The answer to a request to create a todo list: its identifier, or the failure.
#[derive(Debug, Clone, PartialEq, Eq)]
pub struct CreateTodoListResponseModel {
    pub todo_list_id: Option<String>,
    pub error: Option<ErrorModel>,
}

impl ResponseModel for CreateTodoListResponseModel {
    open spec fn reported(&self) -> Option<ErrorEntry> {
        reported_by(self.error)
    }

    open spec fn is_blank(&self) -> bool {
        self.todo_list_id is None
    }

    fn failure(error: ErrorModel) -> (response: CreateTodoListResponseModel) {
        CreateTodoListResponseModel { todo_list_id: None, error: Some(error) }
    }
}

/// A todo list as stored.
#[derive(Debug, Clone, PartialEq, Eq)]
pub struct TodoListModel {
    pub user_id: String,
    pub todo_list_id: String,
    pub title: String,
    pub todo_list_items: Vec<item::TodoListItemModel>,
}

/// The change put to the store when an item is added to a list.
#[derive(Debug, Clone, PartialEq, Eq)]
pub struct AddItemTodoListModel {
    pub user_id: String,
    pub todo_list_id: String,
    pub todo_list_item: item::TodoListItemModel,
}

/// What a client sends to list its todo lists.
#[derive(Debug, Clone, PartialEq, Eq)]
pub struct LookupTodoListsRequestModel {
    pub token: String,
}

impl RequestModel for LookupTodoListsRequestModel {
    open spec fn session_token(&self) -> Seq<char> {
        self.token@
    }

    fn token(&self) -> (token: &String) {
        &self.token
    }
}

/// The question put to the store when todo lists are listed.
#[derive(Debug, Clone, PartialEq, Eq)]
pub struct LookupTodoListsModel {
    pub user_id: String,
}

/// One todo list in a listing, as the store gives it.
#[derive(Debug, Clone, PartialEq, Eq)]
pub struct TodoListsModel {
    pub todo_list_id: String,
    pub title: String,
}

/// One todo list in a listing, as a client is told.
#[derive(Debug, Clone, PartialEq, Eq)]
pub struct TodoListsExternalModel {
    pub todo_list_id: String,
    pub title: String,
}

/// The todo lists of a user, or the failure.
#[derive(Debug, Clone, PartialEq, Eq)]
pub struct LookupTodoListsResponseModel {
    pub todo_lists: Option<Vec<TodoListsExternalModel>>,
    pub error: Option<ErrorModel>,
}

impl ResponseModel for LookupTodoListsResponseModel {
    open spec fn reported(&self) -> Option<ErrorEntry> {
        reported_by(self.error)
    }

    open spec fn is_blank(&self) -> bool {
        self.todo_lists is None
    }

    fn failure(error: ErrorModel) -> (response: LookupTodoListsResponseModel) {
        LookupTodoListsResponseModel { todo_lists: None, error: Some(error) }
    }
}

/// What a client sends to read one todo list.
#[derive(Debug, Clone, PartialEq, Eq)]
pub struct LookupTodoListRequestModel {
    pub token: String,
    pub todo_list_id: String,
}

impl RequestModel for LookupTodoListRequestModel {
    open spec fn session_token(&self) -> Seq<char> {
        self.token@
    }

    fn token(&self) -> (token: &String) {
        &self.token
    }
}

/// A todo list with its items, as a client is told.
#[derive(Debug, Clone, PartialEq, Eq)]
pub struct TodoListExternalModel {
    pub todo_list_id: String,
    pub title: String,
    pub todo_list_items: Vec<item::TodoListItemExternalModel>,
}

/// One todo list, or the failure.
#[derive(Debug, Clone, PartialEq, Eq)]
pub struct LookupTodoListResponseModel {
    pub todo_list: Option<TodoListExternalModel>,
    pub error: Option<ErrorModel>,
}

impl ResponseModel for LookupTodoListResponseModel {
    open spec fn reported(&self) -> Option<ErrorEntry> {
        reported_by(self.error)
    }

    open spec fn is_blank(&self) -> bool {
        self.todo_list is None
    }

    fn failure(error: ErrorModel) -> (response: LookupTodoListResponseModel) {
        LookupTodoListResponseModel { todo_list: None, error: Some(error) }
    }
}

} // verus!
