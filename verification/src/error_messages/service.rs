//! The service tier: what a client is told. Each kind of failure has one
//! row in the registry, a code that clients may branch on and a sentence for
//! people.

use vstd::prelude::*;
use crate::error_messages::domain::EvelynCoreError;
use crate::error_messages::storage::EvelynBaseError;
use crate::model::ErrorModel;

verus! {

/// `serde_json::Error`: why a request body did not decode. It is carried
/// beneath the failure that reports it and never looked into.
#[verifier::external_type_specification]
#[verifier::external_body]
pub struct ExJsonError(serde_json::Error);

/// The kinds of failure that the service reports.
#[derive(Debug, Clone, Copy, PartialEq, Eq, Hash, Structural)]
pub enum ServiceErrorKind {
    // Processing
    ReqestForActionWhichEvelynDoesNotKnowHowToDo,
    EvelynTriedToHandleTheRequestButDidNotYieldAResponse,
    ExpectedHeaderOnRequestButNoneWasFound,
    UnsupportedHttpMethod,
    CouldNotDecodeTheRequestPayload,
    ForeignSessionToken,

    // Server admin
    FailedToPurge,
    InvalidPurgeTargetType,

    // User
    CreateUser,
    UserAlreadyExists,
    LogonUser,
    FailedToLogonUser,
    SearchForUsers,

    // User group
    CreateUserGroup,
    RemoveUserGroup,
    LookupUserGroups,
    LookupUserGroup,
    AddMemberToUserGroup,
    RemoveMemberFromUserGroup,

    // Simple task
    FailedToCreateSimpleTask,
    FailedToUpdateSimpleTask,
    FailedToLookupSimpleTask,
    FailedToRemoveSimpleTask,

    // Todo list
    CreateTodoList,
    AddItemToTodoList,
    LookupTodoLists,
    LookupTodoList,
    UpdateTodoListItem,

    // Agile: project
    CreateAgileProject,
    AddUserContributorToAgileProject,
    AddUserGroupContributorToAgileProject,
    LookupContributingToAgileProjects,
    LookupBacklogAgileProjects,
    LookupAgileProject,

    // Agile: task
    CreateAgileTask,
    LookupAgileTask,
    LookupBacklogAgileTask,
    UpdateAgileTask,

    // Agile: story
    CreateAgileStory,
    LookupAgileStory,
    LookupBacklogAgileStories,

    // Agile: sprint
    CreateAgileSprint,
    LookupActiveAgileSprints,
    LookupBacklogAgileSprints,

    // Agile: heirarchy
    MakeAgileHeirarchyLink,

    // Calendar
    AddCalendarEvent,
}

/// One row of the registry.
pub struct ErrorEntry {
    pub code: Seq<char>,
    pub message: Seq<char>,
}

/// How many kinds of failure there are.
pub const KIND_COUNT: usize = 46;

impl ServiceErrorKind {
    /// The code of this kind. Codes are never reassigned.
    pub open spec fn code(self) -> Seq<char> {
        match self {
            ServiceErrorKind::ReqestForActionWhichEvelynDoesNotKnowHowToDo => "100001"@,
            ServiceErrorKind::EvelynTriedToHandleTheRequestButDidNotYieldAResponse => "100002"@,
            ServiceErrorKind::ExpectedHeaderOnRequestButNoneWasFound => "100003"@,
            ServiceErrorKind::UnsupportedHttpMethod => "100004"@,
            ServiceErrorKind::CouldNotDecodeTheRequestPayload => "100101"@,
            ServiceErrorKind::ForeignSessionToken => "100102"@,
            ServiceErrorKind::FailedToPurge => "100103"@,
            ServiceErrorKind::InvalidPurgeTargetType => "100104"@,
            ServiceErrorKind::CreateUser => "100201"@,
            ServiceErrorKind::UserAlreadyExists => "100202"@,
            ServiceErrorKind::LogonUser => "100203"@,
            ServiceErrorKind::FailedToLogonUser => "100204"@,
            ServiceErrorKind::SearchForUsers => "100205"@,
            ServiceErrorKind::CreateUserGroup => "100601"@,
            ServiceErrorKind::RemoveUserGroup => "100602"@,
            ServiceErrorKind::LookupUserGroups => "100603"@,
            ServiceErrorKind::LookupUserGroup => "100604"@,
            ServiceErrorKind::AddMemberToUserGroup => "100605"@,
            ServiceErrorKind::RemoveMemberFromUserGroup => "100606"@,
            ServiceErrorKind::FailedToCreateSimpleTask => "100301"@,
            ServiceErrorKind::FailedToUpdateSimpleTask => "100302"@,
            ServiceErrorKind::FailedToLookupSimpleTask => "100303"@,
            ServiceErrorKind::FailedToRemoveSimpleTask => "100304"@,
            ServiceErrorKind::CreateTodoList => "100401"@,
            ServiceErrorKind::AddItemToTodoList => "100402"@,
            ServiceErrorKind::LookupTodoLists => "100403"@,
            ServiceErrorKind::LookupTodoList => "100404"@,
            ServiceErrorKind::UpdateTodoListItem => "100405"@,
            ServiceErrorKind::CreateAgileProject => "1006001"@,
            ServiceErrorKind::AddUserContributorToAgileProject => "1006002"@,
            ServiceErrorKind::AddUserGroupContributorToAgileProject => "1006003"@,
            ServiceErrorKind::LookupContributingToAgileProjects => "1006004"@,
            ServiceErrorKind::LookupBacklogAgileProjects => "1006006"@,
            ServiceErrorKind::LookupAgileProject => "1006005"@,
            ServiceErrorKind::CreateAgileTask => "1006101"@,
            ServiceErrorKind::LookupAgileTask => "1006102"@,
            ServiceErrorKind::LookupBacklogAgileTask => "1006104"@,
            ServiceErrorKind::UpdateAgileTask => "1006103"@,
            ServiceErrorKind::CreateAgileStory => "1006401"@,
            ServiceErrorKind::LookupAgileStory => "1006402"@,
            ServiceErrorKind::LookupBacklogAgileStories => "1006403"@,
            ServiceErrorKind::CreateAgileSprint => "1006201"@,
            ServiceErrorKind::LookupActiveAgileSprints => "1006202"@,
            ServiceErrorKind::LookupBacklogAgileSprints => "1006203"@,
            ServiceErrorKind::MakeAgileHeirarchyLink => "1006301"@,
            ServiceErrorKind::AddCalendarEvent => "100501"@,
        }
    }

    /// The sentence that goes with the code.
    pub open spec fn message(self) -> Seq<char> {
        match self {
            ServiceErrorKind::ReqestForActionWhichEvelynDoesNotKnowHowToDo => "Request for an action which Evelyn does now know how to do"@,
            ServiceErrorKind::EvelynTriedToHandleTheRequestButDidNotYieldAResponse => "Evelyn tried to handle the request but hasn't managed to give anything back"@,
            ServiceErrorKind::ExpectedHeaderOnRequestButNoneWasFound => "Expected a header with the request but didn't find a header"@,
            ServiceErrorKind::UnsupportedHttpMethod => "Request uses a method which the evelyn server does not know how to handle"@,
            ServiceErrorKind::CouldNotDecodeTheRequestPayload => "Could not decode the JSON request payload"@,
            ServiceErrorKind::ForeignSessionToken => "The server has been restarted please log on again"@,
            ServiceErrorKind::FailedToPurge => "Failed to purge"@,
            ServiceErrorKind::InvalidPurgeTargetType => "Invalid purge target type"@,
            ServiceErrorKind::CreateUser => "Failed to create user"@,
            ServiceErrorKind::UserAlreadyExists => "Failed to create user a user with that name already exists"@,
            ServiceErrorKind::LogonUser => "Invalid logon"@,
            ServiceErrorKind::FailedToLogonUser => "Failed to logon user"@,
            ServiceErrorKind::SearchForUsers => "Failed to search for users"@,
            ServiceErrorKind::CreateUserGroup => "Failed to create user group"@,
            ServiceErrorKind::RemoveUserGroup => "Failed to remove user group"@,
            ServiceErrorKind::LookupUserGroups => "Failed to lookup user groups"@,
            ServiceErrorKind::LookupUserGroup => "Failed to lookup user group"@,
            ServiceErrorKind::AddMemberToUserGroup => "Failed to add member to user group"@,
            ServiceErrorKind::RemoveMemberFromUserGroup => "Failed to remove member from user group"@,
            ServiceErrorKind::FailedToCreateSimpleTask => "Failed to create simple task"@,
            ServiceErrorKind::FailedToUpdateSimpleTask => "Failed to update simple task"@,
            ServiceErrorKind::FailedToLookupSimpleTask => "Failed to lookup simple task"@,
            ServiceErrorKind::FailedToRemoveSimpleTask => "Failed to remove simple task"@,
            ServiceErrorKind::CreateTodoList => "Failed to create todo list"@,
            ServiceErrorKind::AddItemToTodoList => "Failed to add item to todo list"@,
            ServiceErrorKind::LookupTodoLists => "Failed to lookup todo lists"@,
            ServiceErrorKind::LookupTodoList => "Failed to lookup todo list"@,
            ServiceErrorKind::UpdateTodoListItem => "Failed to update todo list item"@,
            ServiceErrorKind::CreateAgileProject => "Failed to create agile project"@,
            ServiceErrorKind::AddUserContributorToAgileProject => "Failed to add user contributor to agile project"@,
            ServiceErrorKind::AddUserGroupContributorToAgileProject => "Failed to add user group contributor to agile project"@,
            ServiceErrorKind::LookupContributingToAgileProjects => "Failed to lookup contributing to agile projects"@,
            ServiceErrorKind::LookupBacklogAgileProjects => "Failed to lookup agile project backlog"@,
            ServiceErrorKind::LookupAgileProject => "Failed to lookup agile project"@,
            ServiceErrorKind::CreateAgileTask => "Failed to create agile task"@,
            ServiceErrorKind::LookupAgileTask => "Failed to lookup agile task"@,
            ServiceErrorKind::LookupBacklogAgileTask => "Failed to lookup backlog agile task"@,
            ServiceErrorKind::UpdateAgileTask => "Failed to update agile task"@,
            ServiceErrorKind::CreateAgileStory => "Failed to create agile story"@,
            ServiceErrorKind::LookupAgileStory => "Failed to lookup agile story"@,
            ServiceErrorKind::LookupBacklogAgileStories => "Failed to lookup backlog agile stories"@,
            ServiceErrorKind::CreateAgileSprint => "Failed to create agile sprint"@,
            ServiceErrorKind::LookupActiveAgileSprints => "Failed to lookup active sprints"@,
            ServiceErrorKind::LookupBacklogAgileSprints => "Failed to lookup active sprints"@,
            ServiceErrorKind::MakeAgileHeirarchyLink => "Failed to make agile heirarchy link"@,
            ServiceErrorKind::AddCalendarEvent => "Failed to add calendar event"@,
        }
    }

    /// The registry row of this kind.
    pub open spec fn entry(self) -> ErrorEntry {
        ErrorEntry { code: self.code(), message: self.message() }
    }

    /// The place of this kind in the enumeration, counted from zero.
    pub open spec fn ordinal(self) -> int {
        match self {
            ServiceErrorKind::ReqestForActionWhichEvelynDoesNotKnowHowToDo => 0,
            ServiceErrorKind::EvelynTriedToHandleTheRequestButDidNotYieldAResponse => 1,
            ServiceErrorKind::ExpectedHeaderOnRequestButNoneWasFound => 2,
            ServiceErrorKind::UnsupportedHttpMethod => 3,
            ServiceErrorKind::CouldNotDecodeTheRequestPayload => 4,
            ServiceErrorKind::ForeignSessionToken => 5,
            ServiceErrorKind::FailedToPurge => 6,
            ServiceErrorKind::InvalidPurgeTargetType => 7,
            ServiceErrorKind::CreateUser => 8,
            ServiceErrorKind::UserAlreadyExists => 9,
            ServiceErrorKind::LogonUser => 10,
            ServiceErrorKind::FailedToLogonUser => 11,
            ServiceErrorKind::SearchForUsers => 12,
            ServiceErrorKind::CreateUserGroup => 13,
            ServiceErrorKind::RemoveUserGroup => 14,
            ServiceErrorKind::LookupUserGroups => 15,
            ServiceErrorKind::LookupUserGroup => 16,
            ServiceErrorKind::AddMemberToUserGroup => 17,
            ServiceErrorKind::RemoveMemberFromUserGroup => 18,
            ServiceErrorKind::FailedToCreateSimpleTask => 19,
            ServiceErrorKind::FailedToUpdateSimpleTask => 20,
            ServiceErrorKind::FailedToLookupSimpleTask => 21,
            ServiceErrorKind::FailedToRemoveSimpleTask => 22,
            ServiceErrorKind::CreateTodoList => 23,
            ServiceErrorKind::AddItemToTodoList => 24,
            ServiceErrorKind::LookupTodoLists => 25,
            ServiceErrorKind::LookupTodoList => 26,
            ServiceErrorKind::UpdateTodoListItem => 27,
            ServiceErrorKind::CreateAgileProject => 28,
            ServiceErrorKind::AddUserContributorToAgileProject => 29,
            ServiceErrorKind::AddUserGroupContributorToAgileProject => 30,
            ServiceErrorKind::LookupContributingToAgileProjects => 31,
            ServiceErrorKind::LookupBacklogAgileProjects => 32,
            ServiceErrorKind::LookupAgileProject => 33,
            ServiceErrorKind::CreateAgileTask => 34,
            ServiceErrorKind::LookupAgileTask => 35,
            ServiceErrorKind::LookupBacklogAgileTask => 36,
            ServiceErrorKind::UpdateAgileTask => 37,
            ServiceErrorKind::CreateAgileStory => 38,
            ServiceErrorKind::LookupAgileStory => 39,
            ServiceErrorKind::LookupBacklogAgileStories => 40,
            ServiceErrorKind::CreateAgileSprint => 41,
            ServiceErrorKind::LookupActiveAgileSprints => 42,
            ServiceErrorKind::LookupBacklogAgileSprints => 43,
            ServiceErrorKind::MakeAgileHeirarchyLink => 44,
            ServiceErrorKind::AddCalendarEvent => 45,
        }
    }

    /// Every kind, each once, in the order of the enumeration.
    pub fn all() -> (kinds: Vec<ServiceErrorKind>)
        ensures
            kinds@.len() == KIND_COUNT,
            forall|i: int| 0 <= i < kinds@.len() ==> (#[trigger] kinds@[i]).ordinal() == i,
            forall|kind: ServiceErrorKind|
                0 <= #[trigger] kind.ordinal() < kinds@.len() && kinds@[kind.ordinal()] == kind,
    {
        let kinds: Vec<ServiceErrorKind> = vec![
            ServiceErrorKind::ReqestForActionWhichEvelynDoesNotKnowHowToDo,
            ServiceErrorKind::EvelynTriedToHandleTheRequestButDidNotYieldAResponse,
            ServiceErrorKind::ExpectedHeaderOnRequestButNoneWasFound,
            ServiceErrorKind::UnsupportedHttpMethod,
            ServiceErrorKind::CouldNotDecodeTheRequestPayload,
            ServiceErrorKind::ForeignSessionToken,
            ServiceErrorKind::FailedToPurge,
            ServiceErrorKind::InvalidPurgeTargetType,
            ServiceErrorKind::CreateUser,
            ServiceErrorKind::UserAlreadyExists,
            ServiceErrorKind::LogonUser,
            ServiceErrorKind::FailedToLogonUser,
            ServiceErrorKind::SearchForUsers,
            ServiceErrorKind::CreateUserGroup,
            ServiceErrorKind::RemoveUserGroup,
            ServiceErrorKind::LookupUserGroups,
            ServiceErrorKind::LookupUserGroup,
            ServiceErrorKind::AddMemberToUserGroup,
            ServiceErrorKind::RemoveMemberFromUserGroup,
            ServiceErrorKind::FailedToCreateSimpleTask,
            ServiceErrorKind::FailedToUpdateSimpleTask,
            ServiceErrorKind::FailedToLookupSimpleTask,
            ServiceErrorKind::FailedToRemoveSimpleTask,
            ServiceErrorKind::CreateTodoList,
            ServiceErrorKind::AddItemToTodoList,
            ServiceErrorKind::LookupTodoLists,
            ServiceErrorKind::LookupTodoList,
            ServiceErrorKind::UpdateTodoListItem,
            ServiceErrorKind::CreateAgileProject,
            ServiceErrorKind::AddUserContributorToAgileProject,
            ServiceErrorKind::AddUserGroupContributorToAgileProject,
            ServiceErrorKind::LookupContributingToAgileProjects,
            ServiceErrorKind::LookupBacklogAgileProjects,
            ServiceErrorKind::LookupAgileProject,
            ServiceErrorKind::CreateAgileTask,
            ServiceErrorKind::LookupAgileTask,
            ServiceErrorKind::LookupBacklogAgileTask,
            ServiceErrorKind::UpdateAgileTask,
            ServiceErrorKind::CreateAgileStory,
            ServiceErrorKind::LookupAgileStory,
            ServiceErrorKind::LookupBacklogAgileStories,
            ServiceErrorKind::CreateAgileSprint,
            ServiceErrorKind::LookupActiveAgileSprints,
            ServiceErrorKind::LookupBacklogAgileSprints,
            ServiceErrorKind::MakeAgileHeirarchyLink,
            ServiceErrorKind::AddCalendarEvent,
        ];
        kinds
    }

    /// The code as text.
    pub fn code_str(&self) -> (text: &'static str)
        ensures
            text@ == self.code(),
    {
        match self {
            ServiceErrorKind::ReqestForActionWhichEvelynDoesNotKnowHowToDo => "100001",
            ServiceErrorKind::EvelynTriedToHandleTheRequestButDidNotYieldAResponse => "100002",
            ServiceErrorKind::ExpectedHeaderOnRequestButNoneWasFound => "100003",
            ServiceErrorKind::UnsupportedHttpMethod => "100004",
            ServiceErrorKind::CouldNotDecodeTheRequestPayload => "100101",
            ServiceErrorKind::ForeignSessionToken => "100102",
            ServiceErrorKind::FailedToPurge => "100103",
            ServiceErrorKind::InvalidPurgeTargetType => "100104",
            ServiceErrorKind::CreateUser => "100201",
            ServiceErrorKind::UserAlreadyExists => "100202",
            ServiceErrorKind::LogonUser => "100203",
            ServiceErrorKind::FailedToLogonUser => "100204",
            ServiceErrorKind::SearchForUsers => "100205",
            ServiceErrorKind::CreateUserGroup => "100601",
            ServiceErrorKind::RemoveUserGroup => "100602",
            ServiceErrorKind::LookupUserGroups => "100603",
            ServiceErrorKind::LookupUserGroup => "100604",
            ServiceErrorKind::AddMemberToUserGroup => "100605",
            ServiceErrorKind::RemoveMemberFromUserGroup => "100606",
            ServiceErrorKind::FailedToCreateSimpleTask => "100301",
            ServiceErrorKind::FailedToUpdateSimpleTask => "100302",
            ServiceErrorKind::FailedToLookupSimpleTask => "100303",
            ServiceErrorKind::FailedToRemoveSimpleTask => "100304",
            ServiceErrorKind::CreateTodoList => "100401",
            ServiceErrorKind::AddItemToTodoList => "100402",
            ServiceErrorKind::LookupTodoLists => "100403",
            ServiceErrorKind::LookupTodoList => "100404",
            ServiceErrorKind::UpdateTodoListItem => "100405",
            ServiceErrorKind::CreateAgileProject => "1006001",
            ServiceErrorKind::AddUserContributorToAgileProject => "1006002",
            ServiceErrorKind::AddUserGroupContributorToAgileProject => "1006003",
            ServiceErrorKind::LookupContributingToAgileProjects => "1006004",
            ServiceErrorKind::LookupBacklogAgileProjects => "1006006",
            ServiceErrorKind::LookupAgileProject => "1006005",
            ServiceErrorKind::CreateAgileTask => "1006101",
            ServiceErrorKind::LookupAgileTask => "1006102",
            ServiceErrorKind::LookupBacklogAgileTask => "1006104",
            ServiceErrorKind::UpdateAgileTask => "1006103",
            ServiceErrorKind::CreateAgileStory => "1006401",
            ServiceErrorKind::LookupAgileStory => "1006402",
            ServiceErrorKind::LookupBacklogAgileStories => "1006403",
            ServiceErrorKind::CreateAgileSprint => "1006201",
            ServiceErrorKind::LookupActiveAgileSprints => "1006202",
            ServiceErrorKind::LookupBacklogAgileSprints => "1006203",
            ServiceErrorKind::MakeAgileHeirarchyLink => "1006301",
            ServiceErrorKind::AddCalendarEvent => "100501",
        }
    }

    /// The sentence as text.
    pub fn message_str(&self) -> (text: &'static str)
        ensures
            text@ == self.message(),
    {
        match self {
            ServiceErrorKind::ReqestForActionWhichEvelynDoesNotKnowHowToDo => "Request for an action which Evelyn does now know how to do",
            ServiceErrorKind::EvelynTriedToHandleTheRequestButDidNotYieldAResponse => "Evelyn tried to handle the request but hasn't managed to give anything back",
            ServiceErrorKind::ExpectedHeaderOnRequestButNoneWasFound => "Expected a header with the request but didn't find a header",
            ServiceErrorKind::UnsupportedHttpMethod => "Request uses a method which the evelyn server does not know how to handle",
            ServiceErrorKind::CouldNotDecodeTheRequestPayload => "Could not decode the JSON request payload",
            ServiceErrorKind::ForeignSessionToken => "The server has been restarted please log on again",
            ServiceErrorKind::FailedToPurge => "Failed to purge",
            ServiceErrorKind::InvalidPurgeTargetType => "Invalid purge target type",
            ServiceErrorKind::CreateUser => "Failed to create user",
            ServiceErrorKind::UserAlreadyExists => "Failed to create user a user with that name already exists",
            ServiceErrorKind::LogonUser => "Invalid logon",
            ServiceErrorKind::FailedToLogonUser => "Failed to logon user",
            ServiceErrorKind::SearchForUsers => "Failed to search for users",
            ServiceErrorKind::CreateUserGroup => "Failed to create user group",
            ServiceErrorKind::RemoveUserGroup => "Failed to remove user group",
            ServiceErrorKind::LookupUserGroups => "Failed to lookup user groups",
            ServiceErrorKind::LookupUserGroup => "Failed to lookup user group",
            ServiceErrorKind::AddMemberToUserGroup => "Failed to add member to user group",
            ServiceErrorKind::RemoveMemberFromUserGroup => "Failed to remove member from user group",
            ServiceErrorKind::FailedToCreateSimpleTask => "Failed to create simple task",
            ServiceErrorKind::FailedToUpdateSimpleTask => "Failed to update simple task",
            ServiceErrorKind::FailedToLookupSimpleTask => "Failed to lookup simple task",
            ServiceErrorKind::FailedToRemoveSimpleTask => "Failed to remove simple task",
            ServiceErrorKind::CreateTodoList => "Failed to create todo list",
            ServiceErrorKind::AddItemToTodoList => "Failed to add item to todo list",
            ServiceErrorKind::LookupTodoLists => "Failed to lookup todo lists",
            ServiceErrorKind::LookupTodoList => "Failed to lookup todo list",
            ServiceErrorKind::UpdateTodoListItem => "Failed to update todo list item",
            ServiceErrorKind::CreateAgileProject => "Failed to create agile project",
            ServiceErrorKind::AddUserContributorToAgileProject => "Failed to add user contributor to agile project",
            ServiceErrorKind::AddUserGroupContributorToAgileProject => "Failed to add user group contributor to agile project",
            ServiceErrorKind::LookupContributingToAgileProjects => "Failed to lookup contributing to agile projects",
            ServiceErrorKind::LookupBacklogAgileProjects => "Failed to lookup agile project backlog",
            ServiceErrorKind::LookupAgileProject => "Failed to lookup agile project",
            ServiceErrorKind::CreateAgileTask => "Failed to create agile task",
            ServiceErrorKind::LookupAgileTask => "Failed to lookup agile task",
            ServiceErrorKind::LookupBacklogAgileTask => "Failed to lookup backlog agile task",
            ServiceErrorKind::UpdateAgileTask => "Failed to update agile task",
            ServiceErrorKind::CreateAgileStory => "Failed to create agile story",
            ServiceErrorKind::LookupAgileStory => "Failed to lookup agile story",
            ServiceErrorKind::LookupBacklogAgileStories => "Failed to lookup backlog agile stories",
            ServiceErrorKind::CreateAgileSprint => "Failed to create agile sprint",
            ServiceErrorKind::LookupActiveAgileSprints => "Failed to lookup active sprints",
            ServiceErrorKind::LookupBacklogAgileSprints => "Failed to lookup active sprints",
            ServiceErrorKind::MakeAgileHeirarchyLink => "Failed to make agile heirarchy link",
            ServiceErrorKind::AddCalendarEvent => "Failed to add calendar event",
        }
    }
}

/// A failure as the service reports it, with what lay beneath.
#[derive(Debug)]
pub enum EvelynServiceError {
    // Processing
    ReqestForActionWhichEvelynDoesNotKnowHowToDo(EvelynBaseError),
    EvelynTriedToHandleTheRequestButDidNotYieldAResponse(EvelynBaseError),
    ExpectedHeaderOnRequestButNoneWasFound(EvelynBaseError),
    UnsupportedHttpMethod(EvelynBaseError),
    CouldNotDecodeTheRequestPayload(serde_json::Error),
    ForeignSessionToken(EvelynBaseError),

    // Server admin
    FailedToPurge(EvelynCoreError),
    InvalidPurgeTargetType(EvelynBaseError),

    // User
    CreateUser(EvelynCoreError),
    UserAlreadyExists(EvelynCoreError),
    LogonUser(EvelynCoreError),
    FailedToLogonUser(EvelynCoreError),
    SearchForUsers(EvelynCoreError),

    // User group
    CreateUserGroup(EvelynCoreError),
    RemoveUserGroup(EvelynCoreError),
    LookupUserGroups(EvelynCoreError),
    LookupUserGroup(EvelynCoreError),
    AddMemberToUserGroup(EvelynCoreError),
    RemoveMemberFromUserGroup(EvelynCoreError),

    // Simple task
    FailedToCreateSimpleTask(EvelynCoreError),
    FailedToUpdateSimpleTask(EvelynCoreError),
    FailedToLookupSimpleTask(EvelynCoreError),
    FailedToRemoveSimpleTask(EvelynCoreError),

    // Todo list
    CreateTodoList(EvelynCoreError),
    AddItemToTodoList(EvelynCoreError),
    LookupTodoLists(EvelynCoreError),
    LookupTodoList(EvelynCoreError),
    UpdateTodoListItem(EvelynCoreError),

    // Agile: project
    CreateAgileProject(EvelynCoreError),
    AddUserContributorToAgileProject(EvelynCoreError),
    AddUserGroupContributorToAgileProject(EvelynCoreError),
    LookupContributingToAgileProjects(EvelynCoreError),
    LookupBacklogAgileProjects(EvelynCoreError),
    LookupAgileProject(EvelynCoreError),

    // Agile: task
    CreateAgileTask(EvelynCoreError),
    LookupAgileTask(EvelynCoreError),
    LookupBacklogAgileTask(EvelynCoreError),
    UpdateAgileTask(EvelynCoreError),

    // Agile: story
    CreateAgileStory(EvelynCoreError),
    LookupAgileStory(EvelynCoreError),
    LookupBacklogAgileStories(EvelynCoreError),

    // Agile: sprint
    CreateAgileSprint(EvelynCoreError),
    LookupActiveAgileSprints(EvelynCoreError),
    LookupBacklogAgileSprints(EvelynCoreError),

    // Agile: heirarchy
    MakeAgileHeirarchyLink(EvelynCoreError),

    // Calendar
    AddCalendarEvent(EvelynCoreError),
}

impl EvelynServiceError {
    /// The kind of this failure: its variant, without what lies beneath.
    pub open spec fn kind_of(self) -> ServiceErrorKind {
        match self {
            EvelynServiceError::ReqestForActionWhichEvelynDoesNotKnowHowToDo(_) => ServiceErrorKind::ReqestForActionWhichEvelynDoesNotKnowHowToDo,
            EvelynServiceError::EvelynTriedToHandleTheRequestButDidNotYieldAResponse(_) => ServiceErrorKind::EvelynTriedToHandleTheRequestButDidNotYieldAResponse,
            EvelynServiceError::ExpectedHeaderOnRequestButNoneWasFound(_) => ServiceErrorKind::ExpectedHeaderOnRequestButNoneWasFound,
            EvelynServiceError::UnsupportedHttpMethod(_) => ServiceErrorKind::UnsupportedHttpMethod,
            EvelynServiceError::CouldNotDecodeTheRequestPayload(_) => ServiceErrorKind::CouldNotDecodeTheRequestPayload,
            EvelynServiceError::ForeignSessionToken(_) => ServiceErrorKind::ForeignSessionToken,
            EvelynServiceError::FailedToPurge(_) => ServiceErrorKind::FailedToPurge,
            EvelynServiceError::InvalidPurgeTargetType(_) => ServiceErrorKind::InvalidPurgeTargetType,
            EvelynServiceError::CreateUser(_) => ServiceErrorKind::CreateUser,
            EvelynServiceError::UserAlreadyExists(_) => ServiceErrorKind::UserAlreadyExists,
            EvelynServiceError::LogonUser(_) => ServiceErrorKind::LogonUser,
            EvelynServiceError::FailedToLogonUser(_) => ServiceErrorKind::FailedToLogonUser,
            EvelynServiceError::SearchForUsers(_) => ServiceErrorKind::SearchForUsers,
            EvelynServiceError::CreateUserGroup(_) => ServiceErrorKind::CreateUserGroup,
            EvelynServiceError::RemoveUserGroup(_) => ServiceErrorKind::RemoveUserGroup,
            EvelynServiceError::LookupUserGroups(_) => ServiceErrorKind::LookupUserGroups,
            EvelynServiceError::LookupUserGroup(_) => ServiceErrorKind::LookupUserGroup,
            EvelynServiceError::AddMemberToUserGroup(_) => ServiceErrorKind::AddMemberToUserGroup,
            EvelynServiceError::RemoveMemberFromUserGroup(_) => ServiceErrorKind::RemoveMemberFromUserGroup,
            EvelynServiceError::FailedToCreateSimpleTask(_) => ServiceErrorKind::FailedToCreateSimpleTask,
            EvelynServiceError::FailedToUpdateSimpleTask(_) => ServiceErrorKind::FailedToUpdateSimpleTask,
            EvelynServiceError::FailedToLookupSimpleTask(_) => ServiceErrorKind::FailedToLookupSimpleTask,
            EvelynServiceError::FailedToRemoveSimpleTask(_) => ServiceErrorKind::FailedToRemoveSimpleTask,
            EvelynServiceError::CreateTodoList(_) => ServiceErrorKind::CreateTodoList,
            EvelynServiceError::AddItemToTodoList(_) => ServiceErrorKind::AddItemToTodoList,
            EvelynServiceError::LookupTodoLists(_) => ServiceErrorKind::LookupTodoLists,
            EvelynServiceError::LookupTodoList(_) => ServiceErrorKind::LookupTodoList,
            EvelynServiceError::UpdateTodoListItem(_) => ServiceErrorKind::UpdateTodoListItem,
            EvelynServiceError::CreateAgileProject(_) => ServiceErrorKind::CreateAgileProject,
            EvelynServiceError::AddUserContributorToAgileProject(_) => ServiceErrorKind::AddUserContributorToAgileProject,
            EvelynServiceError::AddUserGroupContributorToAgileProject(_) => ServiceErrorKind::AddUserGroupContributorToAgileProject,
            EvelynServiceError::LookupContributingToAgileProjects(_) => ServiceErrorKind::LookupContributingToAgileProjects,
            EvelynServiceError::LookupBacklogAgileProjects(_) => ServiceErrorKind::LookupBacklogAgileProjects,
            EvelynServiceError::LookupAgileProject(_) => ServiceErrorKind::LookupAgileProject,
            EvelynServiceError::CreateAgileTask(_) => ServiceErrorKind::CreateAgileTask,
            EvelynServiceError::LookupAgileTask(_) => ServiceErrorKind::LookupAgileTask,
            EvelynServiceError::LookupBacklogAgileTask(_) => ServiceErrorKind::LookupBacklogAgileTask,
            EvelynServiceError::UpdateAgileTask(_) => ServiceErrorKind::UpdateAgileTask,
            EvelynServiceError::CreateAgileStory(_) => ServiceErrorKind::CreateAgileStory,
            EvelynServiceError::LookupAgileStory(_) => ServiceErrorKind::LookupAgileStory,
            EvelynServiceError::LookupBacklogAgileStories(_) => ServiceErrorKind::LookupBacklogAgileStories,
            EvelynServiceError::CreateAgileSprint(_) => ServiceErrorKind::CreateAgileSprint,
            EvelynServiceError::LookupActiveAgileSprints(_) => ServiceErrorKind::LookupActiveAgileSprints,
            EvelynServiceError::LookupBacklogAgileSprints(_) => ServiceErrorKind::LookupBacklogAgileSprints,
            EvelynServiceError::MakeAgileHeirarchyLink(_) => ServiceErrorKind::MakeAgileHeirarchyLink,
            EvelynServiceError::AddCalendarEvent(_) => ServiceErrorKind::AddCalendarEvent,
        }
    }

    /// The domain failure beneath this one, where there is one.
    pub open spec fn domain_cause(self) -> Option<EvelynCoreError> {
        match self {
            EvelynServiceError::FailedToPurge(e)
            | EvelynServiceError::CreateUser(e)
            | EvelynServiceError::UserAlreadyExists(e)
            | EvelynServiceError::LogonUser(e)
            | EvelynServiceError::FailedToLogonUser(e)
            | EvelynServiceError::SearchForUsers(e)
            | EvelynServiceError::CreateUserGroup(e)
            | EvelynServiceError::RemoveUserGroup(e)
            | EvelynServiceError::LookupUserGroups(e)
            | EvelynServiceError::LookupUserGroup(e)
            | EvelynServiceError::AddMemberToUserGroup(e)
            | EvelynServiceError::RemoveMemberFromUserGroup(e)
            | EvelynServiceError::FailedToCreateSimpleTask(e)
            | EvelynServiceError::FailedToUpdateSimpleTask(e)
            | EvelynServiceError::FailedToLookupSimpleTask(e)
            | EvelynServiceError::FailedToRemoveSimpleTask(e)
            | EvelynServiceError::CreateTodoList(e)
            | EvelynServiceError::AddItemToTodoList(e)
            | EvelynServiceError::LookupTodoLists(e)
            | EvelynServiceError::LookupTodoList(e)
            | EvelynServiceError::UpdateTodoListItem(e)
            | EvelynServiceError::CreateAgileProject(e)
            | EvelynServiceError::AddUserContributorToAgileProject(e)
            | EvelynServiceError::AddUserGroupContributorToAgileProject(e)
            | EvelynServiceError::LookupContributingToAgileProjects(e)
            | EvelynServiceError::LookupBacklogAgileProjects(e)
            | EvelynServiceError::LookupAgileProject(e)
            | EvelynServiceError::CreateAgileTask(e)
            | EvelynServiceError::LookupAgileTask(e)
            | EvelynServiceError::LookupBacklogAgileTask(e)
            | EvelynServiceError::UpdateAgileTask(e)
            | EvelynServiceError::CreateAgileStory(e)
            | EvelynServiceError::LookupAgileStory(e)
            | EvelynServiceError::LookupBacklogAgileStories(e)
            | EvelynServiceError::CreateAgileSprint(e)
            | EvelynServiceError::LookupActiveAgileSprints(e)
            | EvelynServiceError::LookupBacklogAgileSprints(e)
            | EvelynServiceError::MakeAgileHeirarchyLink(e)
            | EvelynServiceError::AddCalendarEvent(e) => Some(e),
            _ => None,
        }
    }

    /// The domain failure beneath this one, where there is one. A failure
    /// to decode has none, nor has one that the service found by itself.
    pub fn cause(&self) -> (cause: Option<&EvelynCoreError>)
        ensures
            match cause {
                Some(e) => self.domain_cause() == Some(*e),
                None => self.domain_cause() is None,
            },
    {
        match self {
            EvelynServiceError::FailedToPurge(e)
            | EvelynServiceError::CreateUser(e)
            | EvelynServiceError::UserAlreadyExists(e)
            | EvelynServiceError::LogonUser(e)
            | EvelynServiceError::FailedToLogonUser(e)
            | EvelynServiceError::SearchForUsers(e)
            | EvelynServiceError::CreateUserGroup(e)
            | EvelynServiceError::RemoveUserGroup(e)
            | EvelynServiceError::LookupUserGroups(e)
            | EvelynServiceError::LookupUserGroup(e)
            | EvelynServiceError::AddMemberToUserGroup(e)
            | EvelynServiceError::RemoveMemberFromUserGroup(e)
            | EvelynServiceError::FailedToCreateSimpleTask(e)
            | EvelynServiceError::FailedToUpdateSimpleTask(e)
            | EvelynServiceError::FailedToLookupSimpleTask(e)
            | EvelynServiceError::FailedToRemoveSimpleTask(e)
            | EvelynServiceError::CreateTodoList(e)
            | EvelynServiceError::AddItemToTodoList(e)
            | EvelynServiceError::LookupTodoLists(e)
            | EvelynServiceError::LookupTodoList(e)
            | EvelynServiceError::UpdateTodoListItem(e)
            | EvelynServiceError::CreateAgileProject(e)
            | EvelynServiceError::AddUserContributorToAgileProject(e)
            | EvelynServiceError::AddUserGroupContributorToAgileProject(e)
            | EvelynServiceError::LookupContributingToAgileProjects(e)
            | EvelynServiceError::LookupBacklogAgileProjects(e)
            | EvelynServiceError::LookupAgileProject(e)
            | EvelynServiceError::CreateAgileTask(e)
            | EvelynServiceError::LookupAgileTask(e)
            | EvelynServiceError::LookupBacklogAgileTask(e)
            | EvelynServiceError::UpdateAgileTask(e)
            | EvelynServiceError::CreateAgileStory(e)
            | EvelynServiceError::LookupAgileStory(e)
            | EvelynServiceError::LookupBacklogAgileStories(e)
            | EvelynServiceError::CreateAgileSprint(e)
            | EvelynServiceError::LookupActiveAgileSprints(e)
            | EvelynServiceError::LookupBacklogAgileSprints(e)
            | EvelynServiceError::MakeAgileHeirarchyLink(e)
            | EvelynServiceError::AddCalendarEvent(e) => Some(e),
            _ => None,
        }
    }

    /// The kind of this failure.
    pub fn kind(&self) -> (kind: ServiceErrorKind)
        ensures
            kind == self.kind_of(),
    {
        match self {
            EvelynServiceError::ReqestForActionWhichEvelynDoesNotKnowHowToDo(_) => ServiceErrorKind::ReqestForActionWhichEvelynDoesNotKnowHowToDo,
            EvelynServiceError::EvelynTriedToHandleTheRequestButDidNotYieldAResponse(_) => ServiceErrorKind::EvelynTriedToHandleTheRequestButDidNotYieldAResponse,
            EvelynServiceError::ExpectedHeaderOnRequestButNoneWasFound(_) => ServiceErrorKind::ExpectedHeaderOnRequestButNoneWasFound,
            EvelynServiceError::UnsupportedHttpMethod(_) => ServiceErrorKind::UnsupportedHttpMethod,
            EvelynServiceError::CouldNotDecodeTheRequestPayload(_) => ServiceErrorKind::CouldNotDecodeTheRequestPayload,
            EvelynServiceError::ForeignSessionToken(_) => ServiceErrorKind::ForeignSessionToken,
            EvelynServiceError::FailedToPurge(_) => ServiceErrorKind::FailedToPurge,
            EvelynServiceError::InvalidPurgeTargetType(_) => ServiceErrorKind::InvalidPurgeTargetType,
            EvelynServiceError::CreateUser(_) => ServiceErrorKind::CreateUser,
            EvelynServiceError::UserAlreadyExists(_) => ServiceErrorKind::UserAlreadyExists,
            EvelynServiceError::LogonUser(_) => ServiceErrorKind::LogonUser,
            EvelynServiceError::FailedToLogonUser(_) => ServiceErrorKind::FailedToLogonUser,
            EvelynServiceError::SearchForUsers(_) => ServiceErrorKind::SearchForUsers,
            EvelynServiceError::CreateUserGroup(_) => ServiceErrorKind::CreateUserGroup,
            EvelynServiceError::RemoveUserGroup(_) => ServiceErrorKind::RemoveUserGroup,
            EvelynServiceError::LookupUserGroups(_) => ServiceErrorKind::LookupUserGroups,
            EvelynServiceError::LookupUserGroup(_) => ServiceErrorKind::LookupUserGroup,
            EvelynServiceError::AddMemberToUserGroup(_) => ServiceErrorKind::AddMemberToUserGroup,
            EvelynServiceError::RemoveMemberFromUserGroup(_) => ServiceErrorKind::RemoveMemberFromUserGroup,
            EvelynServiceError::FailedToCreateSimpleTask(_) => ServiceErrorKind::FailedToCreateSimpleTask,
            EvelynServiceError::FailedToUpdateSimpleTask(_) => ServiceErrorKind::FailedToUpdateSimpleTask,
            EvelynServiceError::FailedToLookupSimpleTask(_) => ServiceErrorKind::FailedToLookupSimpleTask,
            EvelynServiceError::FailedToRemoveSimpleTask(_) => ServiceErrorKind::FailedToRemoveSimpleTask,
            EvelynServiceError::CreateTodoList(_) => ServiceErrorKind::CreateTodoList,
            EvelynServiceError::AddItemToTodoList(_) => ServiceErrorKind::AddItemToTodoList,
            EvelynServiceError::LookupTodoLists(_) => ServiceErrorKind::LookupTodoLists,
            EvelynServiceError::LookupTodoList(_) => ServiceErrorKind::LookupTodoList,
            EvelynServiceError::UpdateTodoListItem(_) => ServiceErrorKind::UpdateTodoListItem,
            EvelynServiceError::CreateAgileProject(_) => ServiceErrorKind::CreateAgileProject,
            EvelynServiceError::AddUserContributorToAgileProject(_) => ServiceErrorKind::AddUserContributorToAgileProject,
            EvelynServiceError::AddUserGroupContributorToAgileProject(_) => ServiceErrorKind::AddUserGroupContributorToAgileProject,
            EvelynServiceError::LookupContributingToAgileProjects(_) => ServiceErrorKind::LookupContributingToAgileProjects,
            EvelynServiceError::LookupBacklogAgileProjects(_) => ServiceErrorKind::LookupBacklogAgileProjects,
            EvelynServiceError::LookupAgileProject(_) => ServiceErrorKind::LookupAgileProject,
            EvelynServiceError::CreateAgileTask(_) => ServiceErrorKind::CreateAgileTask,
            EvelynServiceError::LookupAgileTask(_) => ServiceErrorKind::LookupAgileTask,
            EvelynServiceError::LookupBacklogAgileTask(_) => ServiceErrorKind::LookupBacklogAgileTask,
            EvelynServiceError::UpdateAgileTask(_) => ServiceErrorKind::UpdateAgileTask,
            EvelynServiceError::CreateAgileStory(_) => ServiceErrorKind::CreateAgileStory,
            EvelynServiceError::LookupAgileStory(_) => ServiceErrorKind::LookupAgileStory,
            EvelynServiceError::LookupBacklogAgileStories(_) => ServiceErrorKind::LookupBacklogAgileStories,
            EvelynServiceError::CreateAgileSprint(_) => ServiceErrorKind::CreateAgileSprint,
            EvelynServiceError::LookupActiveAgileSprints(_) => ServiceErrorKind::LookupActiveAgileSprints,
            EvelynServiceError::LookupBacklogAgileSprints(_) => ServiceErrorKind::LookupBacklogAgileSprints,
            EvelynServiceError::MakeAgileHeirarchyLink(_) => ServiceErrorKind::MakeAgileHeirarchyLink,
            EvelynServiceError::AddCalendarEvent(_) => ServiceErrorKind::AddCalendarEvent,
        }
    }

    /// The rendering of a service failure is its code.
    pub fn to_string(&self) -> (text: String)
        ensures
            text@ == self.kind_of().code(),
    {
        self.kind().code_str().to_string()
    }

    /// The sentence for people.
    pub fn description(&self) -> (text: String)
        ensures
            text@ == self.kind_of().message(),
    {
        self.kind().message_str().to_string()
    }
}

/// The registry: the code and the sentence of each kind of failure.
pub fn code_and_message(kind: ServiceErrorKind) -> (entry: ErrorModel)
    ensures
        entry@ == kind.entry(),
        entry@.code.len() > 0,
{
    proof {
        lemma_code_is_not_empty(kind);
    }
    ErrorModel { code: kind.code_str().to_string(), message: kind.message_str().to_string() }
}

/// The value of a decimal digit: its place after the character `0`.
spec fn digit(c: char) -> int {
    c as u32 as int - '0' as u32 as int
}

/// A text of six or seven decimal digits read as a number.
spec fn numeral(text: Seq<char>) -> int {
    if text.len() == 6 {
        digit(text[0]) * 100000 + digit(text[1]) * 10000 + digit(text[2]) * 1000 + digit(text[3])
            * 100 + digit(text[4]) * 10 + digit(text[5])
    } else if text.len() == 7 {
        digit(text[0]) * 1000000 + digit(text[1]) * 100000 + digit(text[2]) * 10000 + digit(
            text[3],
        ) * 1000 + digit(text[4]) * 100 + digit(text[5]) * 10 + digit(text[6])
    } else {
        0
    }
}

impl ServiceErrorKind {
    /// The code of this kind as a number.
    spec fn number(self) -> int {
        match self {
            ServiceErrorKind::ReqestForActionWhichEvelynDoesNotKnowHowToDo => 100001,
            ServiceErrorKind::EvelynTriedToHandleTheRequestButDidNotYieldAResponse => 100002,
            ServiceErrorKind::ExpectedHeaderOnRequestButNoneWasFound => 100003,
            ServiceErrorKind::UnsupportedHttpMethod => 100004,
            ServiceErrorKind::CouldNotDecodeTheRequestPayload => 100101,
            ServiceErrorKind::ForeignSessionToken => 100102,
            ServiceErrorKind::FailedToPurge => 100103,
            ServiceErrorKind::InvalidPurgeTargetType => 100104,
            ServiceErrorKind::CreateUser => 100201,
            ServiceErrorKind::UserAlreadyExists => 100202,
            ServiceErrorKind::LogonUser => 100203,
            ServiceErrorKind::FailedToLogonUser => 100204,
            ServiceErrorKind::SearchForUsers => 100205,
            ServiceErrorKind::CreateUserGroup => 100601,
            ServiceErrorKind::RemoveUserGroup => 100602,
            ServiceErrorKind::LookupUserGroups => 100603,
            ServiceErrorKind::LookupUserGroup => 100604,
            ServiceErrorKind::AddMemberToUserGroup => 100605,
            ServiceErrorKind::RemoveMemberFromUserGroup => 100606,
            ServiceErrorKind::FailedToCreateSimpleTask => 100301,
            ServiceErrorKind::FailedToUpdateSimpleTask => 100302,
            ServiceErrorKind::FailedToLookupSimpleTask => 100303,
            ServiceErrorKind::FailedToRemoveSimpleTask => 100304,
            ServiceErrorKind::CreateTodoList => 100401,
            ServiceErrorKind::AddItemToTodoList => 100402,
            ServiceErrorKind::LookupTodoLists => 100403,
            ServiceErrorKind::LookupTodoList => 100404,
            ServiceErrorKind::UpdateTodoListItem => 100405,
            ServiceErrorKind::CreateAgileProject => 1006001,
            ServiceErrorKind::AddUserContributorToAgileProject => 1006002,
            ServiceErrorKind::AddUserGroupContributorToAgileProject => 1006003,
            ServiceErrorKind::LookupContributingToAgileProjects => 1006004,
            ServiceErrorKind::LookupBacklogAgileProjects => 1006006,
            ServiceErrorKind::LookupAgileProject => 1006005,
            ServiceErrorKind::CreateAgileTask => 1006101,
            ServiceErrorKind::LookupAgileTask => 1006102,
            ServiceErrorKind::LookupBacklogAgileTask => 1006104,
            ServiceErrorKind::UpdateAgileTask => 1006103,
            ServiceErrorKind::CreateAgileStory => 1006401,
            ServiceErrorKind::LookupAgileStory => 1006402,
            ServiceErrorKind::LookupBacklogAgileStories => 1006403,
            ServiceErrorKind::CreateAgileSprint => 1006201,
            ServiceErrorKind::LookupActiveAgileSprints => 1006202,
            ServiceErrorKind::LookupBacklogAgileSprints => 1006203,
            ServiceErrorKind::MakeAgileHeirarchyLink => 1006301,
            ServiceErrorKind::AddCalendarEvent => 100501,
        }
    }
}

/// Each code is the decimal numeral of its kind's number.
proof fn lemma_code_is_numeral(kind: ServiceErrorKind)
    ensures
        numeral(kind.code()) == kind.number(),
        6 <= kind.code().len() <= 7,
{
    match kind {
        ServiceErrorKind::ReqestForActionWhichEvelynDoesNotKnowHowToDo => reveal_strlit("100001"),
        ServiceErrorKind::EvelynTriedToHandleTheRequestButDidNotYieldAResponse => reveal_strlit("100002"),
        ServiceErrorKind::ExpectedHeaderOnRequestButNoneWasFound => reveal_strlit("100003"),
        ServiceErrorKind::UnsupportedHttpMethod => reveal_strlit("100004"),
        ServiceErrorKind::CouldNotDecodeTheRequestPayload => reveal_strlit("100101"),
        ServiceErrorKind::ForeignSessionToken => reveal_strlit("100102"),
        ServiceErrorKind::FailedToPurge => reveal_strlit("100103"),
        ServiceErrorKind::InvalidPurgeTargetType => reveal_strlit("100104"),
        ServiceErrorKind::CreateUser => reveal_strlit("100201"),
        ServiceErrorKind::UserAlreadyExists => reveal_strlit("100202"),
        ServiceErrorKind::LogonUser => reveal_strlit("100203"),
        ServiceErrorKind::FailedToLogonUser => reveal_strlit("100204"),
        ServiceErrorKind::SearchForUsers => reveal_strlit("100205"),
        ServiceErrorKind::CreateUserGroup => reveal_strlit("100601"),
        ServiceErrorKind::RemoveUserGroup => reveal_strlit("100602"),
        ServiceErrorKind::LookupUserGroups => reveal_strlit("100603"),
        ServiceErrorKind::LookupUserGroup => reveal_strlit("100604"),
        ServiceErrorKind::AddMemberToUserGroup => reveal_strlit("100605"),
        ServiceErrorKind::RemoveMemberFromUserGroup => reveal_strlit("100606"),
        ServiceErrorKind::FailedToCreateSimpleTask => reveal_strlit("100301"),
        ServiceErrorKind::FailedToUpdateSimpleTask => reveal_strlit("100302"),
        ServiceErrorKind::FailedToLookupSimpleTask => reveal_strlit("100303"),
        ServiceErrorKind::FailedToRemoveSimpleTask => reveal_strlit("100304"),
        ServiceErrorKind::CreateTodoList => reveal_strlit("100401"),
        ServiceErrorKind::AddItemToTodoList => reveal_strlit("100402"),
        ServiceErrorKind::LookupTodoLists => reveal_strlit("100403"),
        ServiceErrorKind::LookupTodoList => reveal_strlit("100404"),
        ServiceErrorKind::UpdateTodoListItem => reveal_strlit("100405"),
        ServiceErrorKind::CreateAgileProject => reveal_strlit("1006001"),
        ServiceErrorKind::AddUserContributorToAgileProject => reveal_strlit("1006002"),
        ServiceErrorKind::AddUserGroupContributorToAgileProject => reveal_strlit("1006003"),
        ServiceErrorKind::LookupContributingToAgileProjects => reveal_strlit("1006004"),
        ServiceErrorKind::LookupBacklogAgileProjects => reveal_strlit("1006006"),
        ServiceErrorKind::LookupAgileProject => reveal_strlit("1006005"),
        ServiceErrorKind::CreateAgileTask => reveal_strlit("1006101"),
        ServiceErrorKind::LookupAgileTask => reveal_strlit("1006102"),
        ServiceErrorKind::LookupBacklogAgileTask => reveal_strlit("1006104"),
        ServiceErrorKind::UpdateAgileTask => reveal_strlit("1006103"),
        ServiceErrorKind::CreateAgileStory => reveal_strlit("1006401"),
        ServiceErrorKind::LookupAgileStory => reveal_strlit("1006402"),
        ServiceErrorKind::LookupBacklogAgileStories => reveal_strlit("1006403"),
        ServiceErrorKind::CreateAgileSprint => reveal_strlit("1006201"),
        ServiceErrorKind::LookupActiveAgileSprints => reveal_strlit("1006202"),
        ServiceErrorKind::LookupBacklogAgileSprints => reveal_strlit("1006203"),
        ServiceErrorKind::MakeAgileHeirarchyLink => reveal_strlit("1006301"),
        ServiceErrorKind::AddCalendarEvent => reveal_strlit("100501"),
    }
}

/// No kind has an empty code.
pub proof fn lemma_code_is_not_empty(kind: ServiceErrorKind)
    ensures
        kind.code().len() > 0,
{
    lemma_code_is_numeral(kind);
}

/// No two kinds share a code: kinds with the same code are the same kind.
pub proof fn lemma_codes_are_distinct(a: ServiceErrorKind, b: ServiceErrorKind)
    requires
        a.code() == b.code(),
    ensures
        a == b,
{
    lemma_code_is_numeral(a);
    lemma_code_is_numeral(b);
}

} // verus!
