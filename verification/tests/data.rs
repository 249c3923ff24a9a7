use evelyn::data::agile::sprint::insert_sprint;
use evelyn::data::simple_task::{insert_simple_task, lookup_simple_tasks, remove, update_simple_task};
use evelyn::data::todo_list::{add_item_to_todo_list, insert_todo_list, lookup_todo_lists};
use evelyn::data::user::{find_user, insert_user, search_for_users};
use evelyn::data::StoreWrite;
use evelyn::error_messages::{DriverError, EvelynBaseError, EvelynDatabaseError};
use evelyn::model::todo_list::TodoListsModel;
use evelyn::model::user::{SearchResult, UserModel};

fn driver(message: &str) -> DriverError {
    DriverError::new(message.to_string())
}

fn not_a_document() -> Option<EvelynDatabaseError> {
    Some(EvelynDatabaseError::SerialisationFailed(EvelynBaseError::NothingElse))
}

#[test]
fn a_write_that_was_done_reports_nothing() {
    assert_eq!(insert_user(StoreWrite::Done), None);
    assert_eq!(insert_todo_list(StoreWrite::Done), None);
    assert_eq!(add_item_to_todo_list(StoreWrite::Done), None);
    assert_eq!(insert_sprint(StoreWrite::Done), None);
}

#[test]
fn a_record_that_is_no_document_is_a_failure_to_serialise() {
    assert_eq!(insert_user(StoreWrite::NotADocument), not_a_document());
    assert_eq!(insert_todo_list(StoreWrite::NotADocument), not_a_document());
    assert_eq!(add_item_to_todo_list(StoreWrite::NotADocument), not_a_document());
    assert_eq!(insert_sprint(StoreWrite::NotADocument), not_a_document());
}

#[test]
fn a_failed_write_is_reported_under_the_call_that_failed() {
    assert_eq!(
        insert_user(StoreWrite::Failed(driver("x"))),
        Some(EvelynDatabaseError::InsertUser(driver("x")))
    );
    assert_eq!(
        insert_todo_list(StoreWrite::Failed(driver("x"))),
        Some(EvelynDatabaseError::InsertTodoList(driver("x")))
    );
    assert_eq!(
        add_item_to_todo_list(StoreWrite::Failed(driver("x"))),
        Some(EvelynDatabaseError::AddItemToTodoList(driver("x")))
    );
    assert_eq!(
        insert_sprint(StoreWrite::Failed(driver("x"))),
        Some(EvelynDatabaseError::InsertAgileSprint(driver("x")))
    );
}

#[test]
fn what_was_read_is_handed_on_unchanged() {
    let user = UserModel {
        user_id: "1".to_string(),
        user_name: "amy".to_string(),
        email_address: "a@b.com".to_string(),
        password: "pw".to_string(),
    };
    assert_eq!(find_user(Ok(Some(user.clone()))), Ok(Some(user)));
    assert_eq!(find_user(Ok(None)), Ok(None));
    let results = vec![
        SearchResult { user_id: "2".to_string(), user_name: "bob".to_string() },
        SearchResult { user_id: "1".to_string(), user_name: "amy".to_string() },
    ];
    assert_eq!(search_for_users(Ok(results.clone())), Ok(results));
    let lists = vec![TodoListsModel { todo_list_id: "l".to_string(), title: "shopping".to_string() }];
    assert_eq!(lookup_todo_lists(Ok(lists.clone())), Ok(lists));
    assert_eq!(lookup_todo_lists(Ok(vec![])), Ok(vec![]));
}

#[test]
fn a_failed_read_is_reported_under_the_call_that_failed() {
    assert_eq!(find_user(Err(driver("x"))), Err(EvelynDatabaseError::LookupUser(driver("x"))));
    assert_eq!(search_for_users(Err(driver("x"))), Err(EvelynDatabaseError::SearchForUsers(driver("x"))));
    assert_eq!(lookup_todo_lists(Err(driver("x"))), Err(EvelynDatabaseError::LookupTodoLists(driver("x"))));
}

#[test]
fn simple_task_calls_report_under_their_own_names() {
    assert_eq!(insert_simple_task(StoreWrite::Done), None);
    assert_eq!(insert_simple_task(StoreWrite::NotADocument), not_a_document());
    assert_eq!(
        insert_simple_task(StoreWrite::Failed(driver("x"))),
        Some(EvelynDatabaseError::InsertSimpleTask(driver("x")))
    );
    assert_eq!(lookup_simple_tasks(Ok(vec![])), Ok(vec![]));
    assert_eq!(lookup_simple_tasks(Err(driver("x"))), Err(EvelynDatabaseError::LookupSimpleTask(driver("x"))));
    assert_eq!(update_simple_task(Ok(())), None);
    assert_eq!(update_simple_task(Err(driver("x"))), Some(EvelynDatabaseError::UpdateSimpleTask(driver("x"))));
    assert_eq!(remove(Ok(())), None);
    assert_eq!(remove(Err(driver("x"))), Some(EvelynDatabaseError::RemoveSimpleTask(driver("x"))));
}
