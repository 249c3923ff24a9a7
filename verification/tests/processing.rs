use std::cell::{Cell, RefCell};

use evelyn::data::user::{find_user, insert_user};
use evelyn::data::StoreWrite;
use evelyn::error_messages::{
    DriverError, EvelynBaseError, EvelynCoreError, EvelynDatabaseError, EvelynServiceError,
};
use evelyn::logic::user::{create_user, logged_on, logon_user, user_created};
use evelyn::model::agile::heirarchy::MakeLinkResponseModel;
use evelyn::model::agile::project::{CreateContributorResponseModel, ProjectAddResponseModel};
use evelyn::model::simple_task::{
    CreateSimpleTaskResponseModel, LookupSimpleTaskResponseModel, RemoveSimpleTaskResponseModel,
    SimpleTaskExternalModel, UpdateSimpleTaskResponseModel,
};
use evelyn::model::todo_list::item::{AddItemTodoListResponseModel, UpdateItemTodoListResponseModel};
use evelyn::model::todo_list::{
    CreateTodoListResponseModel, LookupTodoListResponseModel, LookupTodoListsResponseModel,
    TodoListExternalModel, TodoListsExternalModel,
};
use evelyn::model::user::{
    CreateUserRequestModel, CreateUserResponseModel, LogonUserRequestModel, LogonUserResponseModel,
    SearchRequestModel, SearchResponseModel, SearchResultExternal, UserModel,
};
use evelyn::model::{rejection, ErrorModel, RequestModel, ResponseModel, SessionTokenModel};
use evelyn::processing::agile::heirarchy::link_processor;
use evelyn::processing::agile::project::{add_contributor_processor, create_processor};
use evelyn::processing::simple_task::{
    create_simple_task_processor, lookup_simple_task_processor, remove_processor,
    update_simple_task_processor,
};
use evelyn::processing::todo_list::{
    add_item_todo_list_processor, create_todo_list_processor, lookup_todo_list_processor,
    lookup_todo_lists_processor, update_item_todo_list_processor,
};
use evelyn::processing::user::{create_user_processor, logon_user_processor, search_processor};
use evelyn::processing::{accept, run_open_processor, run_processor, ProcessorData};
use evelyn::session::{create_session_token, SessionClaims};

fn failure(code: &str, message: &str) -> Option<ErrorModel> {
    Some(ErrorModel { code: code.to_string(), message: message.to_string() })
}

fn undecoded() -> Option<ErrorModel> {
    failure("100101", "Could not decode the JSON request payload")
}

fn foreign() -> Option<ErrorModel> {
    failure("100102", "The server has been restarted please log on again")
}

fn syntax_error() -> serde_json::Error {
    serde_json::from_str::<serde_json::Value>("{\"Token\": ").unwrap_err()
}

fn malformed() -> EvelynServiceError {
    EvelynServiceError::CouldNotDecodeTheRequestPayload(syntax_error())
}

fn restarted() -> EvelynServiceError {
    EvelynServiceError::ForeignSessionToken(EvelynBaseError::NothingElse)
}

fn storage() -> EvelynDatabaseError {
    EvelynDatabaseError::LookupUser(DriverError::new("replica set mongo-7 has no primary".to_string()))
}

fn domain() -> EvelynCoreError {
    EvelynCoreError::FailedToLookupTodoList(storage())
}

fn data() -> ProcessorData {
    ProcessorData { server_session_token: "run-1".to_string() }
}

fn claims(run: &str) -> SessionClaims {
    SessionClaims { user_id: "7d1f".to_string(), server_session_token: run.to_string(), issued_at: 5 }
}

fn search_request() -> SearchRequestModel {
    SearchRequestModel { token: "signed".to_string(), query: "am".to_string() }
}

fn found() -> SearchResponseModel {
    SearchResponseModel {
        search_results: vec![SearchResultExternal { user_id: "1".to_string(), user_name: "amy".to_string() }],
        error: None,
    }
}

// ---------------------------------------------------------------- the shape of a failure

#[test]
fn a_rejection_carries_the_registry_row_and_no_data() {
    let told: SearchResponseModel = rejection(restarted());
    assert_eq!(told, SearchResponseModel { search_results: vec![], error: foreign() });
    let told: LogonUserResponseModel = rejection(malformed());
    assert_eq!(told, LogonUserResponseModel { token: None, error: undecoded() });
    let told: LookupTodoListsResponseModel = rejection(malformed());
    assert_eq!(told, LookupTodoListsResponseModel { todo_lists: None, error: undecoded() });
}

#[test]
fn a_failure_is_told_without_data_in_every_shape() {
    let error = ErrorModel { code: "c".to_string(), message: "m".to_string() };
    let e = || Some(error.clone());
    assert_eq!(CreateUserResponseModel::failure(error.clone()), CreateUserResponseModel { error: e() });
    assert_eq!(
        CreateSimpleTaskResponseModel::failure(error.clone()),
        CreateSimpleTaskResponseModel { task_id: None, error: e() }
    );
    assert_eq!(
        LookupSimpleTaskResponseModel::failure(error.clone()),
        LookupSimpleTaskResponseModel { simple_tasks: vec![], error: e() }
    );
    assert_eq!(
        CreateTodoListResponseModel::failure(error.clone()),
        CreateTodoListResponseModel { todo_list_id: None, error: e() }
    );
    assert_eq!(
        LookupTodoListResponseModel::failure(error.clone()),
        LookupTodoListResponseModel { todo_list: None, error: e() }
    );
    assert_eq!(
        ProjectAddResponseModel::failure(error.clone()),
        ProjectAddResponseModel { project_id: None, error: e() }
    );
    assert_eq!(MakeLinkResponseModel::failure(error.clone()), MakeLinkResponseModel { error: e() });
}

#[test]
fn a_request_names_its_token() {
    assert_eq!(search_request().token(), "signed");
}

// ---------------------------------------------------------------- users

#[test]
fn create_user_processor_tells_each_outcome() {
    assert_eq!(create_user_processor(Ok(None)), CreateUserResponseModel { error: None });
    assert_eq!(
        create_user_processor(Ok(Some(EvelynCoreError::WillNotCreateUserBecauseUserAlreadyExists(
            EvelynBaseError::NothingElse
        )))),
        CreateUserResponseModel {
            error: failure("100202", "Failed to create user a user with that name already exists")
        }
    );
    assert_eq!(
        create_user_processor(Ok(Some(EvelynCoreError::FailedToCreateUser(storage())))),
        CreateUserResponseModel { error: failure("100201", "Failed to create user") }
    );
    assert_eq!(
        create_user_processor(Ok(Some(EvelynCoreError::CannotCheckIfUserExistsSoWillNotCreateNewUser(
            storage()
        )))),
        CreateUserResponseModel { error: failure("100201", "Failed to create user") }
    );
    assert_eq!(create_user_processor(Err(malformed())), CreateUserResponseModel { error: undecoded() });
}

#[test]
fn logon_user_processor_tells_each_outcome() {
    let answer = logged_on("abc.def.ghi".to_string());
    assert_eq!(logon_user_processor(Ok(Ok(answer.clone()))), answer);
    assert_eq!(
        logon_user_processor(Ok(Err(EvelynCoreError::InvalidLogon(EvelynBaseError::NothingElse)))),
        LogonUserResponseModel { token: None, error: failure("100203", "Invalid logon") }
    );
    assert_eq!(
        logon_user_processor(Ok(Err(EvelynCoreError::FailedToLogonUser(storage())))),
        LogonUserResponseModel { token: None, error: failure("100204", "Failed to logon user") }
    );
    assert_eq!(
        logon_user_processor(Err(malformed())),
        LogonUserResponseModel { token: None, error: undecoded() }
    );
}

#[test]
fn search_processor_tells_each_outcome() {
    assert_eq!(search_processor(Ok(Ok(found()))), found());
    assert_eq!(
        search_processor(Ok(Err(EvelynCoreError::FailedToSearchForUsers(storage())))),
        SearchResponseModel { search_results: vec![], error: failure("100205", "Failed to search for users") }
    );
    assert_eq!(
        search_processor(Err(malformed())),
        SearchResponseModel { search_results: vec![], error: undecoded() }
    );
    assert_eq!(
        search_processor(Err(restarted())),
        SearchResponseModel { search_results: vec![], error: foreign() }
    );
}

// ---------------------------------------------------------------- simple tasks

#[test]
fn create_simple_task_processor_tells_each_outcome() {
    let answer = CreateSimpleTaskResponseModel { task_id: Some("id-1".to_string()), error: None };
    assert_eq!(create_simple_task_processor(Ok(Ok(answer.clone()))), answer);
    assert_eq!(
        create_simple_task_processor(Ok(Err(domain()))),
        CreateSimpleTaskResponseModel { task_id: None, error: failure("100301", "Failed to create simple task") }
    );
    assert_eq!(
        create_simple_task_processor(Err(malformed())),
        CreateSimpleTaskResponseModel { task_id: None, error: undecoded() }
    );
    assert_eq!(
        create_simple_task_processor(Err(restarted())),
        CreateSimpleTaskResponseModel { task_id: None, error: foreign() }
    );
}

#[test]
fn lookup_simple_task_processor_tells_each_outcome() {
    let answer = LookupSimpleTaskResponseModel {
        simple_tasks: vec![SimpleTaskExternalModel {
            task_id: "id-1".to_string(),
            title: "t".to_string(),
            description: "d".to_string(),
            due_date: "2017-06-01T09:00:00Z".to_string(),
            completed: false,
        }],
        error: None,
    };
    assert_eq!(lookup_simple_task_processor(Ok(Ok(answer.clone()))), answer);
    assert_eq!(
        lookup_simple_task_processor(Ok(Err(domain()))),
        LookupSimpleTaskResponseModel { simple_tasks: vec![], error: failure("100303", "Failed to lookup simple task") }
    );
    assert_eq!(
        lookup_simple_task_processor(Err(malformed())),
        LookupSimpleTaskResponseModel { simple_tasks: vec![], error: undecoded() }
    );
}

#[test]
fn update_and_remove_processors_tell_each_outcome() {
    assert_eq!(update_simple_task_processor(Ok(None)), UpdateSimpleTaskResponseModel { error: None });
    assert_eq!(
        update_simple_task_processor(Ok(Some(domain()))),
        UpdateSimpleTaskResponseModel { error: failure("100302", "Failed to update simple task") }
    );
    assert_eq!(update_simple_task_processor(Err(malformed())), UpdateSimpleTaskResponseModel { error: undecoded() });
    assert_eq!(remove_processor(Ok(None)), RemoveSimpleTaskResponseModel { error: None });
    assert_eq!(
        remove_processor(Ok(Some(domain()))),
        RemoveSimpleTaskResponseModel { error: failure("100304", "Failed to remove simple task") }
    );
    assert_eq!(remove_processor(Err(restarted())), RemoveSimpleTaskResponseModel { error: foreign() });
}

// ---------------------------------------------------------------- todo lists

#[test]
fn todo_list_processors_tell_each_outcome() {
    let created = CreateTodoListResponseModel { todo_list_id: Some("l-1".to_string()), error: None };
    assert_eq!(create_todo_list_processor(Ok(Ok(created.clone()))), created);
    assert_eq!(
        create_todo_list_processor(Ok(Err(domain()))),
        CreateTodoListResponseModel { todo_list_id: None, error: failure("100401", "Failed to create todo list") }
    );
    assert_eq!(
        create_todo_list_processor(Err(malformed())),
        CreateTodoListResponseModel { todo_list_id: None, error: undecoded() }
    );

    assert_eq!(add_item_todo_list_processor(Ok(None)), AddItemTodoListResponseModel { error: None });
    assert_eq!(
        add_item_todo_list_processor(Ok(Some(domain()))),
        AddItemTodoListResponseModel { error: failure("100402", "Failed to add item to todo list") }
    );
    assert_eq!(add_item_todo_list_processor(Err(malformed())), AddItemTodoListResponseModel { error: undecoded() });

    let lists = LookupTodoListsResponseModel {
        todo_lists: Some(vec![TodoListsExternalModel { todo_list_id: "l-1".to_string(), title: "shopping".to_string() }]),
        error: None,
    };
    assert_eq!(lookup_todo_lists_processor(Ok(Ok(lists.clone()))), lists);
    assert_eq!(
        lookup_todo_lists_processor(Ok(Err(domain()))),
        LookupTodoListsResponseModel { todo_lists: None, error: failure("100403", "Failed to lookup todo lists") }
    );
    assert_eq!(
        lookup_todo_lists_processor(Err(malformed())),
        LookupTodoListsResponseModel { todo_lists: None, error: undecoded() }
    );

    let list = LookupTodoListResponseModel {
        todo_list: Some(TodoListExternalModel {
            todo_list_id: "l-1".to_string(),
            title: "shopping".to_string(),
            todo_list_items: vec![],
        }),
        error: None,
    };
    assert_eq!(lookup_todo_list_processor(Ok(Ok(list.clone()))), list);
    assert_eq!(
        lookup_todo_list_processor(Ok(Err(domain()))),
        LookupTodoListResponseModel { todo_list: None, error: failure("100404", "Failed to lookup todo list") }
    );
    assert_eq!(
        lookup_todo_list_processor(Err(restarted())),
        LookupTodoListResponseModel { todo_list: None, error: foreign() }
    );

    assert_eq!(update_item_todo_list_processor(Ok(None)), UpdateItemTodoListResponseModel { error: None });
    assert_eq!(
        update_item_todo_list_processor(Ok(Some(domain()))),
        UpdateItemTodoListResponseModel { error: failure("100405", "Failed to update todo list item") }
    );
    assert_eq!(
        update_item_todo_list_processor(Err(malformed())),
        UpdateItemTodoListResponseModel { error: undecoded() }
    );
}

// ---------------------------------------------------------------- agile

#[test]
fn agile_processors_tell_each_outcome() {
    assert_eq!(link_processor(Ok(Ok(MakeLinkResponseModel { error: None }))), MakeLinkResponseModel { error: None });
    assert_eq!(
        link_processor(Ok(Err(EvelynCoreError::AgileHeirarcyInvalidLink(EvelynBaseError::NothingElse)))),
        MakeLinkResponseModel { error: failure("1006301", "Failed to make agile heirarchy link") }
    );
    assert_eq!(link_processor(Err(malformed())), MakeLinkResponseModel { error: undecoded() });

    let created = ProjectAddResponseModel { project_id: Some("p-1".to_string()), error: None };
    assert_eq!(create_processor(Ok(Ok(created.clone()))), created);
    assert_eq!(
        create_processor(Ok(Err(domain()))),
        ProjectAddResponseModel { project_id: None, error: failure("1006001", "Failed to create agile project") }
    );
    assert_eq!(create_processor(Err(malformed())), ProjectAddResponseModel { project_id: None, error: undecoded() });

    assert_eq!(add_contributor_processor(Ok(None)), CreateContributorResponseModel { error: None });
    assert_eq!(
        add_contributor_processor(Ok(Some(domain()))),
        CreateContributorResponseModel {
            error: failure("1006002", "Failed to add user contributor to agile project")
        }
    );
    assert_eq!(add_contributor_processor(Err(restarted())), CreateContributorResponseModel { error: foreign() });
}

// ---------------------------------------------------------------- letting a request through

#[test]
fn a_decoded_request_with_a_session_of_this_run_is_let_through() {
    match accept(Ok(search_request()), Some(claims("run-1")), &data()) {
        Ok((model, session)) => {
            assert_eq!(model, search_request());
            assert_eq!(session, SessionTokenModel { user_id: "7d1f".to_string(), issued_at: 5 });
        }
        Err(e) => panic!("{:?}", e),
    }
}

#[test]
fn an_undecoded_body_is_refused_before_the_session_is_looked_at() {
    for session in [Some(claims("run-1")), Some(claims("run-0")), None] {
        let decoded: Result<SearchRequestModel, serde_json::Error> = Err(syntax_error());
        match accept(decoded, session, &data()) {
            Err(EvelynServiceError::CouldNotDecodeTheRequestPayload(_)) => {}
            other => panic!("{:?}", other),
        }
    }
}

#[test]
fn a_decoded_request_with_a_foreign_session_is_refused() {
    for session in [Some(claims("run-0")), None] {
        match accept(Ok(search_request()), session, &data()) {
            Err(EvelynServiceError::ForeignSessionToken(EvelynBaseError::NothingElse)) => {}
            other => panic!("{:?}", other),
        }
    }
}

// ---------------------------------------------------------------- a handler, whole

#[test]
fn a_handler_runs_the_operation_for_a_request_that_is_let_through() {
    let asked = RefCell::new(Vec::new());
    let response = run_processor(
        Ok(search_request()),
        &data(),
        |token: &String| {
            asked.borrow_mut().push(token.clone());
            Some(claims("run-1"))
        },
        |model: SearchRequestModel, session: SessionTokenModel| {
            assert_eq!(model, search_request());
            assert_eq!(session.user_id, "7d1f");
            Ok(found())
        },
        search_processor,
    );
    assert_eq!(response, found());
    assert_eq!(*asked.borrow(), vec!["signed".to_string()]);
}

#[test]
fn a_handler_tells_the_failure_of_its_operation() {
    let response = run_processor(
        Ok(search_request()),
        &data(),
        |_: &String| Some(claims("run-1")),
        |_: SearchRequestModel, _: SessionTokenModel| Err(EvelynCoreError::FailedToSearchForUsers(storage())),
        search_processor,
    );
    assert_eq!(
        response,
        SearchResponseModel { search_results: vec![], error: failure("100205", "Failed to search for users") }
    );
}

#[test]
fn a_handler_does_not_run_the_operation_for_a_body_that_did_not_decode() {
    let looked_up = Cell::new(false);
    let ran = Cell::new(false);
    let response = run_processor(
        Err(syntax_error()),
        &data(),
        |_: &String| {
            looked_up.set(true);
            Some(claims("run-1"))
        },
        |_: SearchRequestModel, _: SessionTokenModel| {
            ran.set(true);
            Ok(found())
        },
        search_processor,
    );
    assert_eq!(response, SearchResponseModel { search_results: vec![], error: undecoded() });
    assert!(!looked_up.get());
    assert!(!ran.get());
}

#[test]
fn a_handler_does_not_run_the_operation_for_a_foreign_session() {
    for session in [Some(claims("run-0")), None] {
        let ran = Cell::new(false);
        let response = run_processor(
            Ok(search_request()),
            &data(),
            move |_: &String| session,
            |_: SearchRequestModel, _: SessionTokenModel| {
                ran.set(true);
                Ok(found())
            },
            search_processor,
        );
        assert_eq!(response, SearchResponseModel { search_results: vec![], error: foreign() });
        assert!(!ran.get());
    }
}

#[test]
fn an_open_handler_does_not_run_the_operation_for_a_body_that_did_not_decode() {
    let ran = Cell::new(false);
    let decoded: Result<CreateUserRequestModel, serde_json::Error> = Err(syntax_error());
    let response = run_open_processor(
        decoded,
        |_: CreateUserRequestModel| {
            ran.set(true);
            None
        },
        create_user_processor,
    );
    assert_eq!(response, CreateUserResponseModel { error: undecoded() });
    assert!(!ran.get());
}

// ---------------------------------------------------------------- from request to answer

fn sign_up(store: &RefCell<Vec<UserModel>>, email: &str) -> CreateUserResponseModel {
    let request = CreateUserRequestModel {
        user_name: "amy".to_string(),
        email_address: email.to_string(),
        password: "hunter2".to_string(),
    };
    run_open_processor(
        Ok(request),
        |model: CreateUserRequestModel| {
            let stored = store.borrow().iter().find(|u| u.email_address == model.email_address).cloned();
            user_created(create_user(model, find_user(Ok(stored))).map(|user| {
                store.borrow_mut().push(user);
                insert_user(StoreWrite::Done)
            }))
        },
        create_user_processor,
    )
}

fn log_on(store: &RefCell<Vec<UserModel>>, email: &str, password: &str) -> LogonUserResponseModel {
    let request = LogonUserRequestModel { email_address: email.to_string(), password: password.to_string() };
    run_open_processor(
        Ok(request),
        |model: LogonUserRequestModel| {
            let stored = store.borrow().iter().find(|u| u.email_address == model.email_address).cloned();
            logon_user(model, find_user(Ok(stored)), &data(), 1_500_000_000)
                .map(|claims| logged_on(format!("signed:{}:{}", claims.user_id, claims.server_session_token)))
        },
        logon_user_processor,
    )
}

#[test]
fn creating_the_same_user_twice_fails_the_second_time() {
    let store = RefCell::new(Vec::new());
    let first = sign_up(&store, "a@b.com");
    assert_eq!(first, CreateUserResponseModel { error: None });
    assert_eq!(store.borrow().len(), 1);
    let second = sign_up(&store, "a@b.com");
    let error = second.error.unwrap();
    assert_eq!(error.code, "100202");
    assert_eq!(error.message, "Failed to create user a user with that name already exists");
    assert!(!error.message.contains("Will not create"));
    assert_eq!(store.borrow().len(), 1);
    assert_eq!(sign_up(&store, "c@d.com"), CreateUserResponseModel { error: None });
    assert_eq!(store.borrow().len(), 2);
}

#[test]
fn a_logon_with_the_wrong_password_is_an_invalid_logon() {
    let store = RefCell::new(Vec::new());
    assert_eq!(sign_up(&store, "a@b.com").error, None);
    let wrong = log_on(&store, "a@b.com", "hunter3");
    assert_eq!(wrong.token, None);
    let error = wrong.error.unwrap();
    assert_eq!(error.code, "100203");
    assert_ne!(error.code, "100204");
    assert_eq!(error.message, "Invalid logon");
}

#[test]
fn a_logon_with_the_right_password_gets_a_token() {
    let store = RefCell::new(Vec::new());
    assert_eq!(sign_up(&store, "a@b.com").error, None);
    let user_id = store.borrow()[0].user_id.clone();
    let right = log_on(&store, "a@b.com", "hunter2");
    assert_eq!(right.error, None);
    assert_eq!(right.token, Some(format!("signed:{}:run-1", user_id)));
    let unknown = log_on(&store, "nobody@b.com", "hunter2");
    assert_eq!(unknown.error.unwrap().code, "100203");
}

#[test]
fn a_session_from_a_logon_lets_a_request_through_until_the_server_restarts() {
    let amy = UserModel {
        user_id: "7d1f".to_string(),
        user_name: "amy".to_string(),
        email_address: "a@b.com".to_string(),
        password: "hunter2".to_string(),
    };
    let issued = create_session_token(&data().server_session_token, &amy, 5);
    assert!(accept(Ok(search_request()), Some(issued.clone()), &data()).is_ok());
    let restarted = ProcessorData { server_session_token: "run-2".to_string() };
    assert!(accept(Ok(search_request()), Some(issued), &restarted).is_err());
}
