//! What holds of every handler of the library.

use vstd::prelude::*;
use crate::error_messages::domain::EvelynCoreError;
use crate::model::agile::heirarchy::MakeLinkResponseModel;
use crate::model::agile::project::{CreateContributorResponseModel, ProjectAddResponseModel};
use crate::model::simple_task::{
    CreateSimpleTaskResponseModel,
    LookupSimpleTaskResponseModel,
    RemoveSimpleTaskResponseModel,
    UpdateSimpleTaskResponseModel,
};
use crate::model::todo_list::item::{AddItemTodoListResponseModel, UpdateItemTodoListResponseModel};
use crate::model::todo_list::{
    CreateTodoListResponseModel,
    LookupTodoListResponseModel,
    LookupTodoListsResponseModel,
};
use crate::model::user::{CreateUserResponseModel, LogonUserResponseModel, SearchResponseModel};
use crate::processing::agile::heirarchy::link_processor;
use crate::processing::agile::project::{add_contributor_processor, create_processor};
use crate::processing::simple_task::{
    create_simple_task_processor,
    lookup_simple_task_processor,
    remove_processor,
    update_simple_task_processor,
};
use crate::processing::tells_refusals;
use crate::processing::todo_list::{
    add_item_todo_list_processor,
    create_todo_list_processor,
    lookup_todo_list_processor,
    lookup_todo_lists_processor,
    update_item_todo_list_processor,
};
use crate::processing::user::{create_user_processor, logon_user_processor, search_processor};

verus! {

/// Every handler of the library tells a refusal as the failure that it is:
/// with the registry row of the refusal's kind and without data. So a body
/// that does not decode, and a session that is foreign, are answered alike
/// by all of them.
pub proof fn lemma_every_handler_tells_refusals()
    ensures
        tells_refusals::<Option<EvelynCoreError>, CreateUserResponseModel, _>(create_user_processor),
        tells_refusals::<Result<LogonUserResponseModel, EvelynCoreError>, LogonUserResponseModel, _>(
            logon_user_processor,
        ),
        tells_refusals::<Result<SearchResponseModel, EvelynCoreError>, SearchResponseModel, _>(
            search_processor,
        ),
        tells_refusals::<
            Result<CreateSimpleTaskResponseModel, EvelynCoreError>,
            CreateSimpleTaskResponseModel,
            _,
        >(create_simple_task_processor),
        tells_refusals::<
            Result<LookupSimpleTaskResponseModel, EvelynCoreError>,
            LookupSimpleTaskResponseModel,
            _,
        >(lookup_simple_task_processor),
        tells_refusals::<Option<EvelynCoreError>, UpdateSimpleTaskResponseModel, _>(
            update_simple_task_processor,
        ),
        tells_refusals::<Option<EvelynCoreError>, RemoveSimpleTaskResponseModel, _>(
            remove_processor,
        ),
        tells_refusals::<
            Result<CreateTodoListResponseModel, EvelynCoreError>,
            CreateTodoListResponseModel,
            _,
        >(create_todo_list_processor),
        tells_refusals::<Option<EvelynCoreError>, AddItemTodoListResponseModel, _>(
            add_item_todo_list_processor,
        ),
        tells_refusals::<
            Result<LookupTodoListsResponseModel, EvelynCoreError>,
            LookupTodoListsResponseModel,
            _,
        >(lookup_todo_lists_processor),
        tells_refusals::<
            Result<LookupTodoListResponseModel, EvelynCoreError>,
            LookupTodoListResponseModel,
            _,
        >(lookup_todo_list_processor),
        tells_refusals::<Option<EvelynCoreError>, UpdateItemTodoListResponseModel, _>(
            update_item_todo_list_processor,
        ),
        tells_refusals::<Result<MakeLinkResponseModel, EvelynCoreError>, MakeLinkResponseModel, _>(
            link_processor,
        ),
        tells_refusals::<Result<ProjectAddResponseModel, EvelynCoreError>, ProjectAddResponseModel, _>(
            create_processor,
        ),
        tells_refusals::<Option<EvelynCoreError>, CreateContributorResponseModel, _>(
            add_contributor_processor,
        ),
{
}

} // verus!
