use evelyn::error_messages::{code_and_message, ServiceErrorKind};
use evelyn::model::ErrorModel;

fn table() -> Vec<(ServiceErrorKind, &'static str, &'static str)> {
    vec![
        (ServiceErrorKind::ReqestForActionWhichEvelynDoesNotKnowHowToDo, "100001", "Request for an action which Evelyn does now know how to do"),
        (ServiceErrorKind::EvelynTriedToHandleTheRequestButDidNotYieldAResponse, "100002", "Evelyn tried to handle the request but hasn't managed to give anything back"),
        (ServiceErrorKind::ExpectedHeaderOnRequestButNoneWasFound, "100003", "Expected a header with the request but didn't find a header"),
        (ServiceErrorKind::UnsupportedHttpMethod, "100004", "Request uses a method which the evelyn server does not know how to handle"),
        (ServiceErrorKind::CouldNotDecodeTheRequestPayload, "100101", "Could not decode the JSON request payload"),
        (ServiceErrorKind::ForeignSessionToken, "100102", "The server has been restarted please log on again"),
        (ServiceErrorKind::FailedToPurge, "100103", "Failed to purge"),
        (ServiceErrorKind::InvalidPurgeTargetType, "100104", "Invalid purge target type"),
        (ServiceErrorKind::CreateUser, "100201", "Failed to create user"),
        (ServiceErrorKind::UserAlreadyExists, "100202", "Failed to create user a user with that name already exists"),
        (ServiceErrorKind::LogonUser, "100203", "Invalid logon"),
        (ServiceErrorKind::FailedToLogonUser, "100204", "Failed to logon user"),
        (ServiceErrorKind::SearchForUsers, "100205", "Failed to search for users"),
        (ServiceErrorKind::CreateUserGroup, "100601", "Failed to create user group"),
        (ServiceErrorKind::RemoveUserGroup, "100602", "Failed to remove user group"),
        (ServiceErrorKind::LookupUserGroups, "100603", "Failed to lookup user groups"),
        (ServiceErrorKind::LookupUserGroup, "100604", "Failed to lookup user group"),
        (ServiceErrorKind::AddMemberToUserGroup, "100605", "Failed to add member to user group"),
        (ServiceErrorKind::RemoveMemberFromUserGroup, "100606", "Failed to remove member from user group"),
        (ServiceErrorKind::FailedToCreateSimpleTask, "100301", "Failed to create simple task"),
        (ServiceErrorKind::FailedToUpdateSimpleTask, "100302", "Failed to update simple task"),
        (ServiceErrorKind::FailedToLookupSimpleTask, "100303", "Failed to lookup simple task"),
        (ServiceErrorKind::FailedToRemoveSimpleTask, "100304", "Failed to remove simple task"),
        (ServiceErrorKind::CreateTodoList, "100401", "Failed to create todo list"),
        (ServiceErrorKind::AddItemToTodoList, "100402", "Failed to add item to todo list"),
        (ServiceErrorKind::LookupTodoLists, "100403", "Failed to lookup todo lists"),
        (ServiceErrorKind::LookupTodoList, "100404", "Failed to lookup todo list"),
        (ServiceErrorKind::UpdateTodoListItem, "100405", "Failed to update todo list item"),
        (ServiceErrorKind::CreateAgileProject, "1006001", "Failed to create agile project"),
        (ServiceErrorKind::AddUserContributorToAgileProject, "1006002", "Failed to add user contributor to agile project"),
        (ServiceErrorKind::AddUserGroupContributorToAgileProject, "1006003", "Failed to add user group contributor to agile project"),
        (ServiceErrorKind::LookupContributingToAgileProjects, "1006004", "Failed to lookup contributing to agile projects"),
        (ServiceErrorKind::LookupBacklogAgileProjects, "1006006", "Failed to lookup agile project backlog"),
        (ServiceErrorKind::LookupAgileProject, "1006005", "Failed to lookup agile project"),
        (ServiceErrorKind::CreateAgileTask, "1006101", "Failed to create agile task"),
        (ServiceErrorKind::LookupAgileTask, "1006102", "Failed to lookup agile task"),
        (ServiceErrorKind::LookupBacklogAgileTask, "1006104", "Failed to lookup backlog agile task"),
        (ServiceErrorKind::UpdateAgileTask, "1006103", "Failed to update agile task"),
        (ServiceErrorKind::CreateAgileStory, "1006401", "Failed to create agile story"),
        (ServiceErrorKind::LookupAgileStory, "1006402", "Failed to lookup agile story"),
        (ServiceErrorKind::LookupBacklogAgileStories, "1006403", "Failed to lookup backlog agile stories"),
        (ServiceErrorKind::CreateAgileSprint, "1006201", "Failed to create agile sprint"),
        (ServiceErrorKind::LookupActiveAgileSprints, "1006202", "Failed to lookup active sprints"),
        (ServiceErrorKind::LookupBacklogAgileSprints, "1006203", "Failed to lookup active sprints"),
        (ServiceErrorKind::MakeAgileHeirarchyLink, "1006301", "Failed to make agile heirarchy link"),
        (ServiceErrorKind::AddCalendarEvent, "100501", "Failed to add calendar event"),
    ]
}

#[test]
fn every_kind_has_a_code_of_its_own() {
    let kinds = ServiceErrorKind::all();
    assert_eq!(kinds.len(), 46);
    for (i, a) in kinds.iter().enumerate() {
        let entry = code_and_message(*a);
        assert!(!entry.code.is_empty());
        assert!(!entry.message.is_empty());
        for b in kinds.iter().skip(i + 1) {
            assert_ne!(a, b);
            assert_ne!(entry.code, code_and_message(*b).code);
        }
    }
}

#[test]
fn all_lists_the_kinds_in_the_order_of_the_table() {
    let kinds = ServiceErrorKind::all();
    let expected: Vec<ServiceErrorKind> = table().into_iter().map(|row| row.0).collect();
    assert_eq!(kinds, expected);
}

#[test]
fn codes_and_messages_are_the_assigned_ones() {
    for (kind, code, message) in table() {
        assert_eq!(
            code_and_message(kind),
            ErrorModel { code: code.to_string(), message: message.to_string() }
        );
    }
}

#[test]
fn codes_are_six_or_seven_decimal_digits() {
    for kind in ServiceErrorKind::all() {
        let code = code_and_message(kind).code;
        assert!(code.len() == 6 || code.len() == 7);
        assert!(code.chars().all(|c| c.is_ascii_digit()));
    }
}

#[test]
fn codes_are_grouped_by_their_leading_digits() {
    assert!(code_and_message(ServiceErrorKind::CreateUser).code.starts_with("1002"));
    assert!(code_and_message(ServiceErrorKind::FailedToRemoveSimpleTask).code.starts_with("1003"));
    assert!(code_and_message(ServiceErrorKind::UpdateTodoListItem).code.starts_with("1004"));
    assert!(code_and_message(ServiceErrorKind::AddCalendarEvent).code.starts_with("1005"));
    assert!(code_and_message(ServiceErrorKind::RemoveUserGroup).code.starts_with("1006"));
    assert!(code_and_message(ServiceErrorKind::CreateAgileProject).code.starts_with("10060"));
    assert!(code_and_message(ServiceErrorKind::UpdateAgileTask).code.starts_with("10061"));
    assert!(code_and_message(ServiceErrorKind::CreateAgileSprint).code.starts_with("10062"));
    assert!(code_and_message(ServiceErrorKind::MakeAgileHeirarchyLink).code.starts_with("10063"));
    assert!(code_and_message(ServiceErrorKind::LookupAgileStory).code.starts_with("10064"));
}

#[test]
fn a_foreign_session_and_a_wrong_password_have_different_codes() {
    assert_eq!(code_and_message(ServiceErrorKind::ForeignSessionToken).code, "100102");
    assert_eq!(code_and_message(ServiceErrorKind::LogonUser).code, "100203");
    assert_eq!(code_and_message(ServiceErrorKind::FailedToLogonUser).code, "100204");
}
