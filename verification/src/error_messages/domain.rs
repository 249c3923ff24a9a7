//! The domain tier: what an operation of the assistant reports when it
//! cannot do what was asked.

use vstd::prelude::*;
use vstd::string::StringExecFns;
use crate::error_messages::storage::{occurs_in, EvelynBaseError, EvelynDatabaseError};

verus! {

/// A failure of one operation. Where storage failed, the storage failure is
/// kept beneath it.
#[derive(Debug, Clone, PartialEq, Eq)]
pub enum EvelynCoreError {
    // Session
    ForeignSession(EvelynBaseError),

    // Server admin
    FailedToPurgeDatabase(EvelynDatabaseError),
    FailedToPurgeDatabaseArea(EvelynDatabaseError),

    // User
    WillNotCreateUserBecauseUserAlreadyExists(EvelynBaseError),
    CannotCheckIfUserExistsSoWillNotCreateNewUser(EvelynDatabaseError),
    FailedToCreateUser(EvelynDatabaseError),
    InvalidLogon(EvelynBaseError),
    FailedToLogonUser(EvelynDatabaseError),
    FailedToSearchForUsers(EvelynDatabaseError),

    // User group
    FailedToCreateUserGroup(EvelynDatabaseError),
    FailedToRemoveUserGroup(EvelynDatabaseError),
    FailedToLookupUserGroups(EvelynDatabaseError),
    FailedToLookupUserGroup(EvelynDatabaseError),
    FailedToAddMemberToUserGroup(EvelynDatabaseError),
    FailedToRemoveMemberFromUserGroup(EvelynDatabaseError),

    // Simple task
    FailedToCreateSimpleTask(EvelynDatabaseError),
    FailedToUpdateSimpleTask(EvelynDatabaseError),
    FailedToLookupSimpleTask(EvelynDatabaseError),
    FailedToRemoveSimpleTask(EvelynDatabaseError),

    // Todo list
    FailedToCreateTodoList(EvelynDatabaseError),
    FailedToAddItemToTodoList(EvelynDatabaseError),
    FailedToLookupTodoLists(EvelynDatabaseError),
    FailedToLookupTodoList(EvelynDatabaseError),
    FailedToUpdateTodoListItem(EvelynDatabaseError),

    // Agile: project
    FailedToCreateAgileProject(EvelynDatabaseError),
    FailedToAddUserContributorToAgileProject(EvelynDatabaseError),
    FailedToAddUserGroupContributorToAgileProject(EvelynDatabaseError),
    FailedToLookupContributingToAgileProjects(EvelynDatabaseError),
    FailedToLookupAgileProject(EvelynDatabaseError),

    // Agile: task
    FailedToCreateAgileTask(EvelynDatabaseError),
    FailedToLookupAgileTask(EvelynDatabaseError),
    FailedToLookupBacklogAgileTasks(EvelynDatabaseError),
    AgileTaskNotFound(EvelynBaseError),
    FailedToUpdateAgileTask(EvelynDatabaseError),

    // Agile: story
    FailedToCreateAgileStory(EvelynDatabaseError),
    FailedToLookupAgileStory(EvelynDatabaseError),
    AgileStoryNotFound(EvelynBaseError),
    FailedToLookupBacklogAgileStories(EvelynDatabaseError),

    // Agile: sprint
    FailedToCreateAgileSprint(EvelynDatabaseError),
    FailedToLookupActiveAgileSprints(EvelynDatabaseError),
    FailedToLookupBacklogAgileSprints(EvelynDatabaseError),

    // Agile: heirarchy
    AgileHeirarcyInvalidLink(EvelynBaseError),
    FailedToMakeAgileHeirarchyLink(EvelynDatabaseError),
    FailedToLookupExistingAgileHeirarchyLinksTo(EvelynDatabaseError),
    FailedToRemoveAgileHeirarchyLink(EvelynDatabaseError),
    FailedToLookupAgileHeirarchyLinks(EvelynDatabaseError),
    FailedToLookupAgileHeirarchyLinksToType(EvelynDatabaseError),

    // Calendar
    FailedToAddCalendarEvent(EvelynDatabaseError),
}

impl EvelynCoreError {
    /// The fixed text that opens the rendering of this failure.
    pub open spec fn prefix(self) -> Seq<char> {
        match self {
            EvelynCoreError::ForeignSession(_) => "The session was not issued by this server "@,
            EvelynCoreError::FailedToPurgeDatabase(_) => "Failed to purge database "@,
            EvelynCoreError::FailedToPurgeDatabaseArea(_) => "Failed to purge database area "@,
            EvelynCoreError::WillNotCreateUserBecauseUserAlreadyExists(_) => "Will not create the requested user because that user already exists. "@,
            EvelynCoreError::CannotCheckIfUserExistsSoWillNotCreateNewUser(_) => "Cannot check if the user exists so a new user will not be ceated: "@,
            EvelynCoreError::FailedToCreateUser(_) => "Failed to create user: "@,
            EvelynCoreError::InvalidLogon(_) => "Invalid logon "@,
            EvelynCoreError::FailedToLogonUser(_) => "Failed to logon user: "@,
            EvelynCoreError::FailedToSearchForUsers(_) => "Failed to search for users: "@,
            EvelynCoreError::FailedToCreateUserGroup(_) => "Failed to create user group: "@,
            EvelynCoreError::FailedToRemoveUserGroup(_) => "Failed to remove user group: "@,
            EvelynCoreError::FailedToLookupUserGroups(_) => "Failed to lookup user groups: "@,
            EvelynCoreError::FailedToLookupUserGroup(_) => "Failed to lookup user group: "@,
            EvelynCoreError::FailedToAddMemberToUserGroup(_) => "Failed to add member to user group: "@,
            EvelynCoreError::FailedToRemoveMemberFromUserGroup(_) => "Failed to remove member from user group: "@,
            EvelynCoreError::FailedToCreateSimpleTask(_) => "Failed to create task: "@,
            EvelynCoreError::FailedToUpdateSimpleTask(_) => "Failed to update task: "@,
            EvelynCoreError::FailedToLookupSimpleTask(_) => "Failed to lookup task: "@,
            EvelynCoreError::FailedToRemoveSimpleTask(_) => "Failed to remove task: "@,
            EvelynCoreError::FailedToCreateTodoList(_) => "Failed to create todo list: "@,
            EvelynCoreError::FailedToAddItemToTodoList(_) => "Failed to add item to todo list: "@,
            EvelynCoreError::FailedToLookupTodoLists(_) => "Failed to lookup todo lists: "@,
            EvelynCoreError::FailedToLookupTodoList(_) => "Failed to lookup todo list: "@,
            EvelynCoreError::FailedToUpdateTodoListItem(_) => "Failed to update todo list item: "@,
            EvelynCoreError::FailedToCreateAgileProject(_) => "Failed to create agile project: "@,
            EvelynCoreError::FailedToAddUserContributorToAgileProject(_) => "Failed to add user contributor to agile project: "@,
            EvelynCoreError::FailedToAddUserGroupContributorToAgileProject(_) => "Failed to add user group contributor to agile project: "@,
            EvelynCoreError::FailedToLookupContributingToAgileProjects(_) => "Failed to lookup contributing to agile projects: "@,
            EvelynCoreError::FailedToLookupAgileProject(_) => "Failed to lookup agile project: "@,
            EvelynCoreError::FailedToCreateAgileTask(_) => "Failed to create agile task: "@,
            EvelynCoreError::FailedToLookupAgileTask(_) => "Failed to lookup agile task: "@,
            EvelynCoreError::FailedToLookupBacklogAgileTasks(_) => "Failed to lookup backlog agile tasks: "@,
            EvelynCoreError::AgileTaskNotFound(_) => "Agile task not found: "@,
            EvelynCoreError::FailedToUpdateAgileTask(_) => "Failed to update agile task: "@,
            EvelynCoreError::FailedToCreateAgileStory(_) => "Failed to create agile story: "@,
            EvelynCoreError::FailedToLookupAgileStory(_) => "Failed to lookup agile story: "@,
            EvelynCoreError::AgileStoryNotFound(_) => "Agile story not found: "@,
            EvelynCoreError::FailedToLookupBacklogAgileStories(_) => "Failed to lookup backlog agile stories: "@,
            EvelynCoreError::FailedToCreateAgileSprint(_) => "Failed to create agile sprint: "@,
            EvelynCoreError::FailedToLookupActiveAgileSprints(_) => "Failed to lookup active agile sprints: "@,
            EvelynCoreError::FailedToLookupBacklogAgileSprints(_) => "Failed to lookup backlog agile sprints: "@,
            EvelynCoreError::AgileHeirarcyInvalidLink(_) => "Invalid link: "@,
            EvelynCoreError::FailedToMakeAgileHeirarchyLink(_) => "Failed to make agile heirarchy link: "@,
            EvelynCoreError::FailedToLookupExistingAgileHeirarchyLinksTo(_) => "Failed to lookup existing links to: "@,
            EvelynCoreError::FailedToRemoveAgileHeirarchyLink(_) => "Failed to remove agile heirarchy link: "@,
            EvelynCoreError::FailedToLookupAgileHeirarchyLinks(_) => "Failed to lookup agile heirarchy links: "@,
            EvelynCoreError::FailedToLookupAgileHeirarchyLinksToType(_) => "Failed to lookup agile heirarchy links to type: "@,
            EvelynCoreError::FailedToAddCalendarEvent(_) => "Failed to add calendar event: "@,
        }
    }

    /// The storage failure beneath this one, where there is one.
    pub open spec fn storage_cause(self) -> Option<EvelynDatabaseError> {
        match self {
            EvelynCoreError::FailedToPurgeDatabase(e)
            | EvelynCoreError::FailedToPurgeDatabaseArea(e)
            | EvelynCoreError::CannotCheckIfUserExistsSoWillNotCreateNewUser(e)
            | EvelynCoreError::FailedToCreateUser(e)
            | EvelynCoreError::FailedToLogonUser(e)
            | EvelynCoreError::FailedToSearchForUsers(e)
            | EvelynCoreError::FailedToCreateUserGroup(e)
            | EvelynCoreError::FailedToRemoveUserGroup(e)
            | EvelynCoreError::FailedToLookupUserGroups(e)
            | EvelynCoreError::FailedToLookupUserGroup(e)
            | EvelynCoreError::FailedToAddMemberToUserGroup(e)
            | EvelynCoreError::FailedToRemoveMemberFromUserGroup(e)
            | EvelynCoreError::FailedToCreateSimpleTask(e)
            | EvelynCoreError::FailedToUpdateSimpleTask(e)
            | EvelynCoreError::FailedToLookupSimpleTask(e)
            | EvelynCoreError::FailedToRemoveSimpleTask(e)
            | EvelynCoreError::FailedToCreateTodoList(e)
            | EvelynCoreError::FailedToAddItemToTodoList(e)
            | EvelynCoreError::FailedToLookupTodoLists(e)
            | EvelynCoreError::FailedToLookupTodoList(e)
            | EvelynCoreError::FailedToUpdateTodoListItem(e)
            | EvelynCoreError::FailedToCreateAgileProject(e)
            | EvelynCoreError::FailedToAddUserContributorToAgileProject(e)
            | EvelynCoreError::FailedToAddUserGroupContributorToAgileProject(e)
            | EvelynCoreError::FailedToLookupContributingToAgileProjects(e)
            | EvelynCoreError::FailedToLookupAgileProject(e)
            | EvelynCoreError::FailedToCreateAgileTask(e)
            | EvelynCoreError::FailedToLookupAgileTask(e)
            | EvelynCoreError::FailedToLookupBacklogAgileTasks(e)
            | EvelynCoreError::FailedToUpdateAgileTask(e)
            | EvelynCoreError::FailedToCreateAgileStory(e)
            | EvelynCoreError::FailedToLookupAgileStory(e)
            | EvelynCoreError::FailedToLookupBacklogAgileStories(e)
            | EvelynCoreError::FailedToCreateAgileSprint(e)
            | EvelynCoreError::FailedToLookupActiveAgileSprints(e)
            | EvelynCoreError::FailedToLookupBacklogAgileSprints(e)
            | EvelynCoreError::FailedToMakeAgileHeirarchyLink(e)
            | EvelynCoreError::FailedToLookupExistingAgileHeirarchyLinksTo(e)
            | EvelynCoreError::FailedToRemoveAgileHeirarchyLink(e)
            | EvelynCoreError::FailedToLookupAgileHeirarchyLinks(e)
            | EvelynCoreError::FailedToLookupAgileHeirarchyLinksToType(e)
            | EvelynCoreError::FailedToAddCalendarEvent(e) => Some(e),
            _ => None,
        }
    }

    /// The rendering of what lies beneath this failure.
    pub open spec fn cause_rendered(self) -> Seq<char> {
        match self.storage_cause() {
            Some(e) => e.rendered(),
            None => EvelynBaseError::NothingElse.rendered(),
        }
    }

    /// The whole rendering: the fixed text, then the cause.
    pub open spec fn rendered(self) -> Seq<char> {
        self.prefix() + self.cause_rendered()
    }

    /// The fixed text of this failure.
    pub fn template(&self) -> (text: &'static str)
        ensures
            text@ == self.prefix(),
    {
        match self {
            EvelynCoreError::ForeignSession(_) => "The session was not issued by this server ",
            EvelynCoreError::FailedToPurgeDatabase(_) => "Failed to purge database ",
            EvelynCoreError::FailedToPurgeDatabaseArea(_) => "Failed to purge database area ",
            EvelynCoreError::WillNotCreateUserBecauseUserAlreadyExists(_) => "Will not create the requested user because that user already exists. ",
            EvelynCoreError::CannotCheckIfUserExistsSoWillNotCreateNewUser(_) => "Cannot check if the user exists so a new user will not be ceated: ",
            EvelynCoreError::FailedToCreateUser(_) => "Failed to create user: ",
            EvelynCoreError::InvalidLogon(_) => "Invalid logon ",
            EvelynCoreError::FailedToLogonUser(_) => "Failed to logon user: ",
            EvelynCoreError::FailedToSearchForUsers(_) => "Failed to search for users: ",
            EvelynCoreError::FailedToCreateUserGroup(_) => "Failed to create user group: ",
            EvelynCoreError::FailedToRemoveUserGroup(_) => "Failed to remove user group: ",
            EvelynCoreError::FailedToLookupUserGroups(_) => "Failed to lookup user groups: ",
            EvelynCoreError::FailedToLookupUserGroup(_) => "Failed to lookup user group: ",
            EvelynCoreError::FailedToAddMemberToUserGroup(_) => "Failed to add member to user group: ",
            EvelynCoreError::FailedToRemoveMemberFromUserGroup(_) => "Failed to remove member from user group: ",
            EvelynCoreError::FailedToCreateSimpleTask(_) => "Failed to create task: ",
            EvelynCoreError::FailedToUpdateSimpleTask(_) => "Failed to update task: ",
            EvelynCoreError::FailedToLookupSimpleTask(_) => "Failed to lookup task: ",
            EvelynCoreError::FailedToRemoveSimpleTask(_) => "Failed to remove task: ",
            EvelynCoreError::FailedToCreateTodoList(_) => "Failed to create todo list: ",
            EvelynCoreError::FailedToAddItemToTodoList(_) => "Failed to add item to todo list: ",
            EvelynCoreError::FailedToLookupTodoLists(_) => "Failed to lookup todo lists: ",
            EvelynCoreError::FailedToLookupTodoList(_) => "Failed to lookup todo list: ",
            EvelynCoreError::FailedToUpdateTodoListItem(_) => "Failed to update todo list item: ",
            EvelynCoreError::FailedToCreateAgileProject(_) => "Failed to create agile project: ",
            EvelynCoreError::FailedToAddUserContributorToAgileProject(_) => "Failed to add user contributor to agile project: ",
            EvelynCoreError::FailedToAddUserGroupContributorToAgileProject(_) => "Failed to add user group contributor to agile project: ",
            EvelynCoreError::FailedToLookupContributingToAgileProjects(_) => "Failed to lookup contributing to agile projects: ",
            EvelynCoreError::FailedToLookupAgileProject(_) => "Failed to lookup agile project: ",
            EvelynCoreError::FailedToCreateAgileTask(_) => "Failed to create agile task: ",
            EvelynCoreError::FailedToLookupAgileTask(_) => "Failed to lookup agile task: ",
            EvelynCoreError::FailedToLookupBacklogAgileTasks(_) => "Failed to lookup backlog agile tasks: ",
            EvelynCoreError::AgileTaskNotFound(_) => "Agile task not found: ",
            EvelynCoreError::FailedToUpdateAgileTask(_) => "Failed to update agile task: ",
            EvelynCoreError::FailedToCreateAgileStory(_) => "Failed to create agile story: ",
            EvelynCoreError::FailedToLookupAgileStory(_) => "Failed to lookup agile story: ",
            EvelynCoreError::AgileStoryNotFound(_) => "Agile story not found: ",
            EvelynCoreError::FailedToLookupBacklogAgileStories(_) => "Failed to lookup backlog agile stories: ",
            EvelynCoreError::FailedToCreateAgileSprint(_) => "Failed to create agile sprint: ",
            EvelynCoreError::FailedToLookupActiveAgileSprints(_) => "Failed to lookup active agile sprints: ",
            EvelynCoreError::FailedToLookupBacklogAgileSprints(_) => "Failed to lookup backlog agile sprints: ",
            EvelynCoreError::AgileHeirarcyInvalidLink(_) => "Invalid link: ",
            EvelynCoreError::FailedToMakeAgileHeirarchyLink(_) => "Failed to make agile heirarchy link: ",
            EvelynCoreError::FailedToLookupExistingAgileHeirarchyLinksTo(_) => "Failed to lookup existing links to: ",
            EvelynCoreError::FailedToRemoveAgileHeirarchyLink(_) => "Failed to remove agile heirarchy link: ",
            EvelynCoreError::FailedToLookupAgileHeirarchyLinks(_) => "Failed to lookup agile heirarchy links: ",
            EvelynCoreError::FailedToLookupAgileHeirarchyLinksToType(_) => "Failed to lookup agile heirarchy links to type: ",
            EvelynCoreError::FailedToAddCalendarEvent(_) => "Failed to add calendar event: ",
        }
    }

    /// The storage failure beneath this one, where there is one.
    pub fn cause(&self) -> (cause: Option<&EvelynDatabaseError>)
        ensures
            match cause {
                Some(e) => self.storage_cause() == Some(*e),
                None => self.storage_cause() is None,
            },
    {
        match self {
            EvelynCoreError::FailedToPurgeDatabase(e)
            | EvelynCoreError::FailedToPurgeDatabaseArea(e)
            | EvelynCoreError::CannotCheckIfUserExistsSoWillNotCreateNewUser(e)
            | EvelynCoreError::FailedToCreateUser(e)
            | EvelynCoreError::FailedToLogonUser(e)
            | EvelynCoreError::FailedToSearchForUsers(e)
            | EvelynCoreError::FailedToCreateUserGroup(e)
            | EvelynCoreError::FailedToRemoveUserGroup(e)
            | EvelynCoreError::FailedToLookupUserGroups(e)
            | EvelynCoreError::FailedToLookupUserGroup(e)
            | EvelynCoreError::FailedToAddMemberToUserGroup(e)
            | EvelynCoreError::FailedToRemoveMemberFromUserGroup(e)
            | EvelynCoreError::FailedToCreateSimpleTask(e)
            | EvelynCoreError::FailedToUpdateSimpleTask(e)
            | EvelynCoreError::FailedToLookupSimpleTask(e)
            | EvelynCoreError::FailedToRemoveSimpleTask(e)
            | EvelynCoreError::FailedToCreateTodoList(e)
            | EvelynCoreError::FailedToAddItemToTodoList(e)
            | EvelynCoreError::FailedToLookupTodoLists(e)
            | EvelynCoreError::FailedToLookupTodoList(e)
            | EvelynCoreError::FailedToUpdateTodoListItem(e)
            | EvelynCoreError::FailedToCreateAgileProject(e)
            | EvelynCoreError::FailedToAddUserContributorToAgileProject(e)
            | EvelynCoreError::FailedToAddUserGroupContributorToAgileProject(e)
            | EvelynCoreError::FailedToLookupContributingToAgileProjects(e)
            | EvelynCoreError::FailedToLookupAgileProject(e)
            | EvelynCoreError::FailedToCreateAgileTask(e)
            | EvelynCoreError::FailedToLookupAgileTask(e)
            | EvelynCoreError::FailedToLookupBacklogAgileTasks(e)
            | EvelynCoreError::FailedToUpdateAgileTask(e)
            | EvelynCoreError::FailedToCreateAgileStory(e)
            | EvelynCoreError::FailedToLookupAgileStory(e)
            | EvelynCoreError::FailedToLookupBacklogAgileStories(e)
            | EvelynCoreError::FailedToCreateAgileSprint(e)
            | EvelynCoreError::FailedToLookupActiveAgileSprints(e)
            | EvelynCoreError::FailedToLookupBacklogAgileSprints(e)
            | EvelynCoreError::FailedToMakeAgileHeirarchyLink(e)
            | EvelynCoreError::FailedToLookupExistingAgileHeirarchyLinksTo(e)
            | EvelynCoreError::FailedToRemoveAgileHeirarchyLink(e)
            | EvelynCoreError::FailedToLookupAgileHeirarchyLinks(e)
            | EvelynCoreError::FailedToLookupAgileHeirarchyLinksToType(e)
            | EvelynCoreError::FailedToAddCalendarEvent(e) => Some(e),
            _ => None,
        }
    }

    /// The rendering of the cause.
    pub fn cause_text(&self) -> (text: String)
        ensures
            text@ == self.cause_rendered(),
    {
        match self.cause() {
            Some(e) => e.to_string(),
            None => EvelynBaseError::NothingElse.to_string(),
        }
    }

    /// The whole rendering as text, for logs and diagnostics.
    pub fn to_string(&self) -> (text: String)
        ensures
            text@ == self.rendered(),
    {
        let cause: String = self.cause_text();
        String::from_str(self.template()).concat(cause.as_str())
    }
}

/// A domain failure that wraps a storage failure keeps the chain of causes:
/// the rendering of the storage failure occurs, whole, in the rendering of
/// the domain failure.
pub proof fn lemma_storage_cause_is_rendered(error: EvelynCoreError)
    requires
        error.storage_cause() is Some,
    ensures
        occurs_in(error.storage_cause()->0.rendered(), error.rendered()),
{
    let cause = error.storage_cause()->0.rendered();
    let at = error.prefix().len() as int;
    assert(error.rendered().subrange(at, at + cause.len()) =~= cause);
}

} // verus!
