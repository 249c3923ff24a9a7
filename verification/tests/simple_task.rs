use evelyn::error_messages::{DriverError, EvelynCoreError, EvelynDatabaseError};
use evelyn::logic::schedule::precedes;
use evelyn::logic::simple_task::{
    arrangement_by, create_simple_task, has_readable_dates, listing_by, lookup_simple_tasks,
    new_simple_task, remove,
    simple_task_created, simple_task_lookup, simple_task_updated, try_lookup_simple_tasks,
    update_simple_task,
};
use evelyn::model::simple_task::{
    CreateSimpleTaskRequestModel, CreateSimpleTaskResponseModel, LookupSimpleTaskRequestModel,
    LookupSimpleTaskResponseModel, SimpleTaskExternalModel, SimpleTaskLookupModel, SimpleTaskModel,
    SimpleTaskUpdateModel, UpdateSimpleTaskRequestModel,
};
use evelyn::model::SessionTokenModel;

fn session() -> SessionTokenModel {
    SessionTokenModel { user_id: "amy".to_string(), issued_at: 7 }
}

fn task(id: &str, title: &str, due: &str, completed: bool) -> SimpleTaskModel {
    SimpleTaskModel {
        user_id: "amy".to_string(),
        task_id: id.to_string(),
        title: title.to_string(),
        description: format!("about {}", title),
        due_date: due.to_string(),
        completed,
    }
}

fn told(id: &str, title: &str, due: &str, completed: bool) -> SimpleTaskExternalModel {
    SimpleTaskExternalModel {
        task_id: id.to_string(),
        title: title.to_string(),
        description: format!("about {}", title),
        due_date: due.to_string(),
        completed,
    }
}

fn lookup(limit: u32, show_completed: bool) -> SimpleTaskLookupModel {
    SimpleTaskLookupModel { user_id: "amy".to_string(), limit, show_completed }
}

fn ids(answer: Result<LookupSimpleTaskResponseModel, EvelynCoreError>) -> Vec<String> {
    let response = answer.unwrap();
    assert_eq!(response.error, None);
    response.simple_tasks.into_iter().map(|t| t.task_id).collect()
}

fn create_request() -> CreateSimpleTaskRequestModel {
    CreateSimpleTaskRequestModel {
        token: "t".to_string(),
        title: "water the plants".to_string(),
        description: "all of them".to_string(),
        due_date: "2017-06-01T09:00:00Z".to_string(),
    }
}

#[test]
fn a_new_task_belongs_to_who_asked_and_is_not_done() {
    assert_eq!(
        new_simple_task(create_request(), session(), "id-1".to_string()),
        SimpleTaskModel {
            user_id: "amy".to_string(),
            task_id: "id-1".to_string(),
            title: "water the plants".to_string(),
            description: "all of them".to_string(),
            due_date: "2017-06-01T09:00:00Z".to_string(),
            completed: false,
        }
    );
}

#[test]
fn a_created_task_gets_a_fresh_identifier() {
    let a = create_simple_task(create_request(), session());
    let b = create_simple_task(create_request(), session());
    assert_eq!(a.task_id.len(), 36);
    assert_ne!(a.task_id, b.task_id);
    assert_eq!(a, new_simple_task(create_request(), session(), a.task_id.clone()));
}

#[test]
fn a_kept_task_is_answered_with_its_identifier() {
    let kept = task("id-1", "a", "2017-06-01T09:00:00Z", false);
    assert_eq!(
        simple_task_created(&kept, None),
        Ok(CreateSimpleTaskResponseModel { task_id: Some("id-1".to_string()), error: None })
    );
    let failure = EvelynDatabaseError::InsertSimpleTask(DriverError::new("x".to_string()));
    assert_eq!(
        simple_task_created(&kept, Some(failure.clone())),
        Err(EvelynCoreError::FailedToCreateSimpleTask(failure))
    );
}

#[test]
fn the_store_is_asked_for_the_tasks_of_who_asked() {
    let request = LookupSimpleTaskRequestModel { token: "t".to_string(), limit: 3, show_completed: true };
    assert_eq!(simple_task_lookup(request, session()), lookup(3, true));
}

#[test]
fn tasks_are_listed_by_due_date() {
    let found = vec![
        task("c", "c", "2017-06-03T09:00:00Z", false),
        task("a", "a", "2017-06-01T09:00:00Z", false),
        task("b", "b", "2017-06-02T09:00:00Z", false),
    ];
    assert_eq!(
        lookup_simple_tasks(&lookup(0, true), Ok(found)),
        Ok(LookupSimpleTaskResponseModel {
            simple_tasks: vec![
                told("a", "a", "2017-06-01T09:00:00Z", false),
                told("b", "b", "2017-06-02T09:00:00Z", false),
                told("c", "c", "2017-06-03T09:00:00Z", false),
            ],
            error: None,
        })
    );
}

#[test]
fn due_dates_are_compared_as_instants_not_as_texts() {
    // 10:00 two hours east of Greenwich is 08:00 in UTC, before 09:00 in UTC
    let found = vec![
        task("utc", "x", "2020-01-01T09:00:00Z", false),
        task("east", "x", "2020-01-01T10:00:00+02:00", false),
        task("west", "x", "2019-12-31 23:30:00-10:00", false),
        task("fraction", "x", "2020-01-01T08:00:00.5Z", false),
    ];
    assert_eq!(
        ids(lookup_simple_tasks(&lookup(0, true), Ok(found))),
        vec!["east", "fraction", "utc", "west"]
    );
}

#[test]
fn tasks_due_at_the_same_instant_are_listed_by_title() {
    let found = vec![
        task("3", "walk", "2017-06-01T09:00:00Z", false),
        task("1", "bake", "2017-06-01T11:00:00+02:00", false),
        task("2", "call", "2017-06-01 09:00:00Z", false),
        task("0", "zzz", "2017-05-31T09:00:00Z", false),
    ];
    assert_eq!(ids(lookup_simple_tasks(&lookup(0, true), Ok(found))), vec!["0", "1", "2", "3"]);
}

#[test]
fn tasks_of_equal_rank_keep_the_order_of_the_store() {
    let found = vec![
        task("first", "same", "2017-06-01T09:00:00Z", false),
        task("late", "same", "2017-06-02T09:00:00Z", false),
        task("second", "same", "2017-06-01T09:00:00Z", false),
        task("third", "same", "2017-06-01T09:00:00Z", false),
    ];
    assert_eq!(
        ids(lookup_simple_tasks(&lookup(0, true), Ok(found))),
        vec!["first", "second", "third", "late"]
    );
}

#[test]
fn done_tasks_are_listed_only_when_asked_for() {
    let found = || vec![
        task("b", "b", "2017-06-02T09:00:00Z", true),
        task("a", "a", "2017-06-01T09:00:00Z", false),
        task("c", "c", "2017-06-03T09:00:00Z", false),
    ];
    assert_eq!(ids(lookup_simple_tasks(&lookup(0, false), Ok(found()))), vec!["a", "c"]);
    assert_eq!(ids(lookup_simple_tasks(&lookup(0, true), Ok(found()))), vec!["a", "b", "c"]);
    let response = lookup_simple_tasks(&lookup(0, true), Ok(found())).unwrap();
    assert!(response.simple_tasks[1].completed);
}

#[test]
fn a_limit_keeps_the_first_tasks_of_the_listing() {
    let found = || vec![
        task("d", "d", "2017-06-04T09:00:00Z", false),
        task("b", "b", "2017-06-02T09:00:00Z", true),
        task("a", "a", "2017-06-01T09:00:00Z", false),
        task("c", "c", "2017-06-03T09:00:00Z", false),
    ];
    assert_eq!(ids(lookup_simple_tasks(&lookup(2, true), Ok(found()))), vec!["a", "b"]);
    assert_eq!(ids(lookup_simple_tasks(&lookup(1, true), Ok(found()))), vec!["a"]);
    assert_eq!(ids(lookup_simple_tasks(&lookup(4, true), Ok(found()))), vec!["a", "b", "c", "d"]);
    assert_eq!(ids(lookup_simple_tasks(&lookup(9, true), Ok(found()))), vec!["a", "b", "c", "d"]);
    // the limit counts what is shown, not what is stored
    assert_eq!(ids(lookup_simple_tasks(&lookup(2, false), Ok(found()))), vec!["a", "c"]);
}

#[test]
fn a_limit_of_zero_is_no_limit() {
    let found = vec![
        task("b", "b", "2017-06-02T09:00:00Z", false),
        task("a", "a", "2017-06-01T09:00:00Z", false),
    ];
    assert_eq!(ids(lookup_simple_tasks(&lookup(0, false), Ok(found))), vec!["a", "b"]);
}

#[test]
fn no_tasks_make_an_empty_listing() {
    assert_eq!(
        lookup_simple_tasks(&lookup(5, false), Ok(vec![])),
        Ok(LookupSimpleTaskResponseModel { simple_tasks: vec![], error: None })
    );
}

#[test]
fn a_failed_lookup_is_reported() {
    let failure = EvelynDatabaseError::LookupSimpleTask(DriverError::new("x".to_string()));
    assert_eq!(
        lookup_simple_tasks(&lookup(0, true), Err(failure.clone())),
        Err(EvelynCoreError::FailedToLookupSimpleTask(failure.clone()))
    );
    assert_eq!(
        try_lookup_simple_tasks(&lookup(0, true), Err(failure.clone())),
        Some(Err(EvelynCoreError::FailedToLookupSimpleTask(failure)))
    );
}

#[test]
fn a_single_task_is_listed_whatever_its_due_date() {
    let found = vec![task("a", "a", "next tuesday", false)];
    assert!(has_readable_dates(&found));
    assert_eq!(
        try_lookup_simple_tasks(&lookup(0, true), Ok(found)),
        Some(Ok(LookupSimpleTaskResponseModel {
            simple_tasks: vec![told("a", "a", "next tuesday", false)],
            error: None,
        }))
    );
}

#[test]
fn tasks_with_an_unreadable_due_date_cannot_be_listed() {
    for bad in ["next tuesday", "", "2017-06-01", "2017-06-01T09:00:00", "2017-13-01T09:00:00Z"] {
        let found = vec![
            task("a", "a", "2017-06-01T09:00:00Z", false),
            task("b", "b", bad, true),
        ];
        assert!(!has_readable_dates(&found));
        assert_eq!(try_lookup_simple_tasks(&lookup(0, false), Ok(found)), None);
    }
}

#[test]
fn tasks_with_readable_due_dates_are_listed_as_by_the_lookup() {
    let found = || vec![
        task("b", "b", "2017-06-02T09:00:00Z", false),
        task("a", "a", "2017-06-01T09:00:00Z", true),
    ];
    assert!(has_readable_dates(&found()));
    assert_eq!(
        try_lookup_simple_tasks(&lookup(1, true), Ok(found())),
        Some(lookup_simple_tasks(&lookup(1, true), Ok(found())))
    );
}

#[test]
fn texts_are_ordered_place_by_place() {
    assert!(precedes("a", "b"));
    assert!(!precedes("b", "a"));
    assert!(!precedes("a", "a"));
    assert!(precedes("", "a"));
    assert!(!precedes("a", ""));
    assert!(!precedes("", ""));
    assert!(precedes("ab", "abc"));
    assert!(!precedes("abc", "ab"));
    assert!(precedes("abc", "abd"));
    assert!(precedes("Zebra", "apple"));
    assert!(precedes("z", "é"));
    assert!(precedes("é", "日本"));
    assert!(!precedes("日本", "é"));
    for (a, b) in [("a", "b"), ("", "x"), ("abc", "abd"), ("z", "é"), ("same", "same")] {
        assert_eq!(precedes(a, b), a < b);
        assert_eq!(precedes(b, a), b < a);
    }
}

#[test]
fn an_update_carries_the_new_values_for_the_task_of_who_asked() {
    let request = UpdateSimpleTaskRequestModel {
        token: "t".to_string(),
        task_id: "id-1".to_string(),
        new_title: "T".to_string(),
        new_description: "D".to_string(),
        new_due_date: "2017-06-01T09:00:00Z".to_string(),
        new_completed: true,
    };
    assert_eq!(
        update_simple_task(request, session()),
        SimpleTaskUpdateModel {
            user_id: "amy".to_string(),
            task_id: "id-1".to_string(),
            title: "T".to_string(),
            description: "D".to_string(),
            due_date: "2017-06-01T09:00:00Z".to_string(),
            completed: true,
        }
    );
}

#[test]
fn a_failed_update_or_removal_is_reported() {
    let failure = EvelynDatabaseError::UpdateSimpleTask(DriverError::new("x".to_string()));
    assert_eq!(simple_task_updated(None), None);
    assert_eq!(
        simple_task_updated(Some(failure.clone())),
        Some(EvelynCoreError::FailedToUpdateSimpleTask(failure))
    );
    let failure = EvelynDatabaseError::RemoveSimpleTask(DriverError::new("y".to_string()));
    assert_eq!(remove(None), None);
    assert_eq!(remove(Some(failure.clone())), Some(EvelynCoreError::FailedToRemoveSimpleTask(failure)));
}

#[test]
fn tasks_are_arranged_by_the_instants_they_are_given() {
    let tasks = vec![
        task("a", "a", "whenever", false),
        task("b", "b", "whenever", false),
        task("c", "c", "whenever", false),
    ];
    assert_eq!(arrangement_by(&tasks, &vec![(3, 0), (1, 0), (2, 0)]), vec![1, 2, 0]);
    assert_eq!(arrangement_by(&tasks, &vec![(1, 0), (2, 0), (3, 0)]), vec![0, 1, 2]);
    assert_eq!(arrangement_by(&tasks, &vec![(3, 0), (2, 0), (1, 0)]), vec![2, 1, 0]);
    // the nanoseconds decide among equal seconds
    assert_eq!(arrangement_by(&tasks, &vec![(5, 2), (5, 1), (4, 999_999_999)]), vec![2, 1, 0]);
    // instants before 1970 come first
    assert_eq!(arrangement_by(&tasks, &vec![(0, 0), (-1, 5), (i64::MIN, 0)]), vec![2, 1, 0]);
    let none: Vec<usize> = vec![];
    assert_eq!(arrangement_by(&vec![], &vec![]), none);
    assert_eq!(arrangement_by(&tasks[..1].to_vec(), &vec![(9, 9)]), vec![0]);
}

#[test]
fn tasks_given_the_same_instant_are_arranged_by_title_then_by_arrival() {
    let tasks = vec![
        task("0", "walk", "whenever", false),
        task("1", "bake", "whenever", false),
        task("2", "walk", "whenever", false),
        task("3", "call", "whenever", false),
    ];
    assert_eq!(arrangement_by(&tasks, &vec![(7, 0), (7, 0), (7, 0), (7, 0)]), vec![1, 3, 0, 2]);
    assert_eq!(arrangement_by(&tasks, &vec![(7, 0), (8, 0), (7, 0), (6, 0)]), vec![3, 0, 2, 1]);
}

#[test]
fn a_listing_by_given_instants_is_ordered_shown_and_limited() {
    let tasks = vec![
        task("a", "a", "whenever", false),
        task("b", "b", "whenever", true),
        task("c", "c", "whenever", false),
    ];
    let instants = vec![(3, 0), (1, 0), (2, 0)];
    assert_eq!(
        listing_by(&tasks, &instants, 0, true),
        vec![
            told("b", "b", "whenever", true),
            told("c", "c", "whenever", false),
            told("a", "a", "whenever", false),
        ]
    );
    assert_eq!(
        listing_by(&tasks, &instants, 0, false),
        vec![told("c", "c", "whenever", false), told("a", "a", "whenever", false)]
    );
    assert_eq!(listing_by(&tasks, &instants, 1, false), vec![told("c", "c", "whenever", false)]);
    assert_eq!(listing_by(&tasks, &instants, 1, true), vec![told("b", "b", "whenever", true)]);
    assert_eq!(listing_by(&tasks, &instants, 5, false).len(), 2);
    assert_eq!(listing_by(&vec![], &vec![], 5, false), vec![]);
}

#[test]
fn a_created_tasks_identifier_has_the_hyphenated_form() {
    let created = create_simple_task(create_request(), session());
    for (i, c) in created.task_id.chars().enumerate() {
        if i == 8 || i == 13 || i == 18 || i == 23 {
            assert_eq!(c, '-');
        } else {
            assert!(c.is_ascii_digit() || ('a'..='f').contains(&c));
        }
    }
}
