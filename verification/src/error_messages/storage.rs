//! The storage tier: failures of the document store and of the encoding
//! that stands before it.

use vstd::prelude::*;
use vstd::string::StringExecFns;

verus! {

/// The cause of a failure that has nothing beneath it. It renders as the
/// empty text.
#[derive(Debug, Clone, Copy, PartialEq, Eq)]
pub enum EvelynBaseError {
    NothingElse,
}

impl EvelynBaseError {
    /// What this cause adds to a rendered chain: nothing.
    pub open spec fn rendered(self) -> Seq<char> {
        Seq::<char>::empty()
    }

    /// The rendering: the empty text.
    pub fn to_string(&self) -> (text: String)
        ensures
            text@ == self.rendered(),
    {
        String::new()
    }
}

/// What the store's driver, or the encoder before it, reported: its own
/// rendering of the failure, kept as text.
#[derive(Debug, Clone, PartialEq, Eq)]
pub struct DriverError {
    pub message: String,
}

impl DriverError {
    /// The rendering: what was reported, as it was reported.
    pub open spec fn rendered(self) -> Seq<char> {
        self.message@
    }

    /// Keeps what was reported.
    pub fn new(message: String) -> (error: DriverError)
        ensures
            error.message == message,
    {
        DriverError { message }
    }

    /// The rendering as text.
    pub fn to_string(&self) -> (text: String)
        ensures
            text@ == self.rendered(),
    {
        self.message.clone()
    }
}

/// A failure of one storage call.
#[derive(Debug, Clone, PartialEq, Eq)]
pub enum EvelynDatabaseError {
    // Processing
    SerialisationFailed(EvelynBaseError),
    BSONEncodeFailed(DriverError),
    BSONDecodeFailed(DriverError),

    // Server admin
    PurgeDatabase(DriverError),
    PurgeCollection(DriverError),

    // User
    InsertUser(DriverError),
    LookupUser(DriverError),
    SearchForUsers(DriverError),

    // User group
    InsertUserGroup(DriverError),
    RemoveUserGroup(DriverError),
    LookupUserGroups(DriverError),
    UserGroupNotFound(EvelynBaseError),
    LookupUserGroup(DriverError),
    AddMemberToUserGroup(DriverError),
    RemoveMemberFromUserGroup(DriverError),

    // Simple task
    InsertSimpleTask(DriverError),
    UpdateSimpleTask(DriverError),
    LookupSimpleTask(DriverError),
    RemoveSimpleTask(DriverError),

    // Todo list
    InsertTodoList(DriverError),
    AddItemToTodoList(DriverError),
    LookupTodoLists(DriverError),
    TodoListNotFound(EvelynBaseError),
    LookupTodoList(DriverError),
    UpdateTodoListItem(DriverError),

    // Agile: project
    InsertAgileProject(DriverError),
    AddUserContributorToAgileProject(DriverError),
    AddUserGroupContributorToAgileProject(DriverError),
    LookupContributingToAgileProjects(DriverError),
    AgileProjectNotFound(EvelynBaseError),
    LookupAgileProject(DriverError),

    // Agile: task
    InsertAgileTask(DriverError),
    LookupAgileTaskById(DriverError),
    LookupBacklogAgileTasks(DriverError),
    UpdateAgileTask(DriverError),

    // Agile: story
    InsertAgileStory(DriverError),
    LookupAgileStory(DriverError),
    LookupBacklogAgileStories(DriverError),

    // Agile: sprint
    InsertAgileSprint(DriverError),
    LookupActiveAgileSprints(DriverError),
    LookupBacklogAgileSprints(DriverError),

    // Agile: heirarchy
    InsertAgileHeirarchyLink(DriverError),
    LookupAgileHeirarchyLinkTo(DriverError),
    RemoveAgileHeirarchyLinksById(DriverError),
    LookupAgileHeirarchyLinks(DriverError),
    LookupAgileHeirarchyLinksToType(DriverError),

    // Calendar
    InsertCalendarEvent(DriverError),
}

impl EvelynDatabaseError {
    /// The fixed text that opens the rendering of this failure.
    pub open spec fn prefix(self) -> Seq<char> {
        match self {
            EvelynDatabaseError::SerialisationFailed(_) => "Failed to serialise data for storage. "@,
            EvelynDatabaseError::BSONEncodeFailed(_) => "Failed to serialise data for storage. "@,
            EvelynDatabaseError::BSONDecodeFailed(_) => "Failed to deserialise data for storage. "@,
            EvelynDatabaseError::PurgeDatabase(_) => "Failed to purge database "@,
            EvelynDatabaseError::PurgeCollection(_) => "Failed to purge collection "@,
            EvelynDatabaseError::InsertUser(_) => "Failed to create record for new user: "@,
            EvelynDatabaseError::LookupUser(_) => "Failed to lookup user: "@,
            EvelynDatabaseError::SearchForUsers(_) => "Failed to search for users: "@,
            EvelynDatabaseError::InsertUserGroup(_) => "Failed to create user group: "@,
            EvelynDatabaseError::RemoveUserGroup(_) => "Failed to remove user group: "@,
            EvelynDatabaseError::LookupUserGroups(_) => "Failed to lookup user groups: "@,
            EvelynDatabaseError::UserGroupNotFound(_) => "User group not found: "@,
            EvelynDatabaseError::LookupUserGroup(_) => "Failed to lookup user group: "@,
            EvelynDatabaseError::AddMemberToUserGroup(_) => "Failed to add member to user group: "@,
            EvelynDatabaseError::RemoveMemberFromUserGroup(_) => "Failed to remove member from user group: "@,
            EvelynDatabaseError::InsertSimpleTask(_) => "Failed to create new simple task: "@,
            EvelynDatabaseError::UpdateSimpleTask(_) => "Failed to update simple task: "@,
            EvelynDatabaseError::LookupSimpleTask(_) => "Failed to lookup simple tasks: "@,
            EvelynDatabaseError::RemoveSimpleTask(_) => "Failed to remove simple task: "@,
            EvelynDatabaseError::InsertTodoList(_) => "Failed to insert todo list: "@,
            EvelynDatabaseError::AddItemToTodoList(_) => "Failed to add item to todo list: "@,
            EvelynDatabaseError::LookupTodoLists(_) => "Failed to lookup todo lists: "@,
            EvelynDatabaseError::TodoListNotFound(_) => "Todo list not found "@,
            EvelynDatabaseError::LookupTodoList(_) => "Failed to lookup todo list:  "@,
            EvelynDatabaseError::UpdateTodoListItem(_) => "Failed to update todo list item:  "@,
            EvelynDatabaseError::InsertAgileProject(_) => "Failed to insert agile project: "@,
            EvelynDatabaseError::AddUserContributorToAgileProject(_) => "Failed to add user contributor to agile project: "@,
            EvelynDatabaseError::AddUserGroupContributorToAgileProject(_) => "Failed to add user group contributor to agile project: "@,
            EvelynDatabaseError::LookupContributingToAgileProjects(_) => "Failed to lookup contributing to agile projects: "@,
            EvelynDatabaseError::AgileProjectNotFound(_) => "Agile project was not found: "@,
            EvelynDatabaseError::LookupAgileProject(_) => "Failed to lookup agile project: "@,
            EvelynDatabaseError::InsertAgileTask(_) => "Failed to insert agile task: "@,
            EvelynDatabaseError::LookupAgileTaskById(_) => "Failed to lookup agile task by id: "@,
            EvelynDatabaseError::LookupBacklogAgileTasks(_) => "Failed to lookup backlog agile tasks: "@,
            EvelynDatabaseError::UpdateAgileTask(_) => "Failed to update agile task: "@,
            EvelynDatabaseError::InsertAgileStory(_) => "Failed to insert agile story: "@,
            EvelynDatabaseError::LookupAgileStory(_) => "Failed to lookup agile story: "@,
            EvelynDatabaseError::LookupBacklogAgileStories(_) => "Failed to lookup backlog agile stories: "@,
            EvelynDatabaseError::InsertAgileSprint(_) => "Failed to insert agile sprint: "@,
            EvelynDatabaseError::LookupActiveAgileSprints(_) => "Failed to lookup active agile sprints: "@,
            EvelynDatabaseError::LookupBacklogAgileSprints(_) => "Failed to lookup backlog agile sprints: "@,
            EvelynDatabaseError::InsertAgileHeirarchyLink(_) => "Failed to insert agile heirarchy link: "@,
            EvelynDatabaseError::LookupAgileHeirarchyLinkTo(_) => "Failed to lookup link to: "@,
            EvelynDatabaseError::RemoveAgileHeirarchyLinksById(_) => "Failed to remove links by id: "@,
            EvelynDatabaseError::LookupAgileHeirarchyLinks(_) => "Failed to lookup agile heirarchy links: "@,
            EvelynDatabaseError::LookupAgileHeirarchyLinksToType(_) => "Failed to lookup agile heirarchy links to type: "@,
            EvelynDatabaseError::InsertCalendarEvent(_) => "Failed to insert calendar event: "@,
        }
    }

    /// What the driver reported beneath this failure, where it reported
    /// anything.
    pub open spec fn driver_cause(self) -> Option<DriverError> {
        match self {
            EvelynDatabaseError::BSONEncodeFailed(e)
            | EvelynDatabaseError::BSONDecodeFailed(e)
            | EvelynDatabaseError::PurgeDatabase(e)
            | EvelynDatabaseError::PurgeCollection(e)
            | EvelynDatabaseError::InsertUser(e)
            | EvelynDatabaseError::LookupUser(e)
            | EvelynDatabaseError::SearchForUsers(e)
            | EvelynDatabaseError::InsertUserGroup(e)
            | EvelynDatabaseError::RemoveUserGroup(e)
            | EvelynDatabaseError::LookupUserGroups(e)
            | EvelynDatabaseError::LookupUserGroup(e)
            | EvelynDatabaseError::AddMemberToUserGroup(e)
            | EvelynDatabaseError::RemoveMemberFromUserGroup(e)
            | EvelynDatabaseError::InsertSimpleTask(e)
            | EvelynDatabaseError::UpdateSimpleTask(e)
            | EvelynDatabaseError::LookupSimpleTask(e)
            | EvelynDatabaseError::RemoveSimpleTask(e)
            | EvelynDatabaseError::InsertTodoList(e)
            | EvelynDatabaseError::AddItemToTodoList(e)
            | EvelynDatabaseError::LookupTodoLists(e)
            | EvelynDatabaseError::LookupTodoList(e)
            | EvelynDatabaseError::UpdateTodoListItem(e)
            | EvelynDatabaseError::InsertAgileProject(e)
            | EvelynDatabaseError::AddUserContributorToAgileProject(e)
            | EvelynDatabaseError::AddUserGroupContributorToAgileProject(e)
            | EvelynDatabaseError::LookupContributingToAgileProjects(e)
            | EvelynDatabaseError::LookupAgileProject(e)
            | EvelynDatabaseError::InsertAgileTask(e)
            | EvelynDatabaseError::LookupAgileTaskById(e)
            | EvelynDatabaseError::LookupBacklogAgileTasks(e)
            | EvelynDatabaseError::UpdateAgileTask(e)
            | EvelynDatabaseError::InsertAgileStory(e)
            | EvelynDatabaseError::LookupAgileStory(e)
            | EvelynDatabaseError::LookupBacklogAgileStories(e)
            | EvelynDatabaseError::InsertAgileSprint(e)
            | EvelynDatabaseError::LookupActiveAgileSprints(e)
            | EvelynDatabaseError::LookupBacklogAgileSprints(e)
            | EvelynDatabaseError::InsertAgileHeirarchyLink(e)
            | EvelynDatabaseError::LookupAgileHeirarchyLinkTo(e)
            | EvelynDatabaseError::RemoveAgileHeirarchyLinksById(e)
            | EvelynDatabaseError::LookupAgileHeirarchyLinks(e)
            | EvelynDatabaseError::LookupAgileHeirarchyLinksToType(e)
            | EvelynDatabaseError::InsertCalendarEvent(e) => Some(e),
            _ => None,
        }
    }

    /// The rendering of what lies beneath this failure.
    pub open spec fn cause_rendered(self) -> Seq<char> {
        match self.driver_cause() {
            Some(e) => e.rendered(),
            None => EvelynBaseError::NothingElse.rendered(),
        }
    }

    /// The whole rendering: the fixed text, then the cause.
    pub open spec fn rendered(self) -> Seq<char> {
        self.prefix() + self.cause_rendered()
    }

    /// The fixed text of this failure.
    pub fn template(&self) -> (text: &'static str)
        ensures
            text@ == self.prefix(),
    {
        match self {
            EvelynDatabaseError::SerialisationFailed(_) => "Failed to serialise data for storage. ",
            EvelynDatabaseError::BSONEncodeFailed(_) => "Failed to serialise data for storage. ",
            EvelynDatabaseError::BSONDecodeFailed(_) => "Failed to deserialise data for storage. ",
            EvelynDatabaseError::PurgeDatabase(_) => "Failed to purge database ",
            EvelynDatabaseError::PurgeCollection(_) => "Failed to purge collection ",
            EvelynDatabaseError::InsertUser(_) => "Failed to create record for new user: ",
            EvelynDatabaseError::LookupUser(_) => "Failed to lookup user: ",
            EvelynDatabaseError::SearchForUsers(_) => "Failed to search for users: ",
            EvelynDatabaseError::InsertUserGroup(_) => "Failed to create user group: ",
            EvelynDatabaseError::RemoveUserGroup(_) => "Failed to remove user group: ",
            EvelynDatabaseError::LookupUserGroups(_) => "Failed to lookup user groups: ",
            EvelynDatabaseError::UserGroupNotFound(_) => "User group not found: ",
            EvelynDatabaseError::LookupUserGroup(_) => "Failed to lookup user group: ",
            EvelynDatabaseError::AddMemberToUserGroup(_) => "Failed to add member to user group: ",
            EvelynDatabaseError::RemoveMemberFromUserGroup(_) => "Failed to remove member from user group: ",
            EvelynDatabaseError::InsertSimpleTask(_) => "Failed to create new simple task: ",
            EvelynDatabaseError::UpdateSimpleTask(_) => "Failed to update simple task: ",
            EvelynDatabaseError::LookupSimpleTask(_) => "Failed to lookup simple tasks: ",
            EvelynDatabaseError::RemoveSimpleTask(_) => "Failed to remove simple task: ",
            EvelynDatabaseError::InsertTodoList(_) => "Failed to insert todo list: ",
            EvelynDatabaseError::AddItemToTodoList(_) => "Failed to add item to todo list: ",
            EvelynDatabaseError::LookupTodoLists(_) => "Failed to lookup todo lists: ",
            EvelynDatabaseError::TodoListNotFound(_) => "Todo list not found ",
            EvelynDatabaseError::LookupTodoList(_) => "Failed to lookup todo list:  ",
            EvelynDatabaseError::UpdateTodoListItem(_) => "Failed to update todo list item:  ",
            EvelynDatabaseError::InsertAgileProject(_) => "Failed to insert agile project: ",
            EvelynDatabaseError::AddUserContributorToAgileProject(_) => "Failed to add user contributor to agile project: ",
            EvelynDatabaseError::AddUserGroupContributorToAgileProject(_) => "Failed to add user group contributor to agile project: ",
            EvelynDatabaseError::LookupContributingToAgileProjects(_) => "Failed to lookup contributing to agile projects: ",
            EvelynDatabaseError::AgileProjectNotFound(_) => "Agile project was not found: ",
            EvelynDatabaseError::LookupAgileProject(_) => "Failed to lookup agile project: ",
            EvelynDatabaseError::InsertAgileTask(_) => "Failed to insert agile task: ",
            EvelynDatabaseError::LookupAgileTaskById(_) => "Failed to lookup agile task by id: ",
            EvelynDatabaseError::LookupBacklogAgileTasks(_) => "Failed to lookup backlog agile tasks: ",
            EvelynDatabaseError::UpdateAgileTask(_) => "Failed to update agile task: ",
            EvelynDatabaseError::InsertAgileStory(_) => "Failed to insert agile story: ",
            EvelynDatabaseError::LookupAgileStory(_) => "Failed to lookup agile story: ",
            EvelynDatabaseError::LookupBacklogAgileStories(_) => "Failed to lookup backlog agile stories: ",
            EvelynDatabaseError::InsertAgileSprint(_) => "Failed to insert agile sprint: ",
            EvelynDatabaseError::LookupActiveAgileSprints(_) => "Failed to lookup active agile sprints: ",
            EvelynDatabaseError::LookupBacklogAgileSprints(_) => "Failed to lookup backlog agile sprints: ",
            EvelynDatabaseError::InsertAgileHeirarchyLink(_) => "Failed to insert agile heirarchy link: ",
            EvelynDatabaseError::LookupAgileHeirarchyLinkTo(_) => "Failed to lookup link to: ",
            EvelynDatabaseError::RemoveAgileHeirarchyLinksById(_) => "Failed to remove links by id: ",
            EvelynDatabaseError::LookupAgileHeirarchyLinks(_) => "Failed to lookup agile heirarchy links: ",
            EvelynDatabaseError::LookupAgileHeirarchyLinksToType(_) => "Failed to lookup agile heirarchy links to type: ",
            EvelynDatabaseError::InsertCalendarEvent(_) => "Failed to insert calendar event: ",
        }
    }

    /// What the driver reported beneath this failure, where it reported
    /// anything.
    pub fn cause(&self) -> (cause: Option<&DriverError>)
        ensures
            match cause {
                Some(e) => self.driver_cause() == Some(*e),
                None => self.driver_cause() is None,
            },
    {
        match self {
            EvelynDatabaseError::BSONEncodeFailed(e)
            | EvelynDatabaseError::BSONDecodeFailed(e)
            | EvelynDatabaseError::PurgeDatabase(e)
            | EvelynDatabaseError::PurgeCollection(e)
            | EvelynDatabaseError::InsertUser(e)
            | EvelynDatabaseError::LookupUser(e)
            | EvelynDatabaseError::SearchForUsers(e)
            | EvelynDatabaseError::InsertUserGroup(e)
            | EvelynDatabaseError::RemoveUserGroup(e)
            | EvelynDatabaseError::LookupUserGroups(e)
            | EvelynDatabaseError::LookupUserGroup(e)
            | EvelynDatabaseError::AddMemberToUserGroup(e)
            | EvelynDatabaseError::RemoveMemberFromUserGroup(e)
            | EvelynDatabaseError::InsertSimpleTask(e)
            | EvelynDatabaseError::UpdateSimpleTask(e)
            | EvelynDatabaseError::LookupSimpleTask(e)
            | EvelynDatabaseError::RemoveSimpleTask(e)
            | EvelynDatabaseError::InsertTodoList(e)
            | EvelynDatabaseError::AddItemToTodoList(e)
            | EvelynDatabaseError::LookupTodoLists(e)
            | EvelynDatabaseError::LookupTodoList(e)
            | EvelynDatabaseError::UpdateTodoListItem(e)
            | EvelynDatabaseError::InsertAgileProject(e)
            | EvelynDatabaseError::AddUserContributorToAgileProject(e)
            | EvelynDatabaseError::AddUserGroupContributorToAgileProject(e)
            | EvelynDatabaseError::LookupContributingToAgileProjects(e)
            | EvelynDatabaseError::LookupAgileProject(e)
            | EvelynDatabaseError::InsertAgileTask(e)
            | EvelynDatabaseError::LookupAgileTaskById(e)
            | EvelynDatabaseError::LookupBacklogAgileTasks(e)
            | EvelynDatabaseError::UpdateAgileTask(e)
            | EvelynDatabaseError::InsertAgileStory(e)
            | EvelynDatabaseError::LookupAgileStory(e)
            | EvelynDatabaseError::LookupBacklogAgileStories(e)
            | EvelynDatabaseError::InsertAgileSprint(e)
            | EvelynDatabaseError::LookupActiveAgileSprints(e)
            | EvelynDatabaseError::LookupBacklogAgileSprints(e)
            | EvelynDatabaseError::InsertAgileHeirarchyLink(e)
            | EvelynDatabaseError::LookupAgileHeirarchyLinkTo(e)
            | EvelynDatabaseError::RemoveAgileHeirarchyLinksById(e)
            | EvelynDatabaseError::LookupAgileHeirarchyLinks(e)
            | EvelynDatabaseError::LookupAgileHeirarchyLinksToType(e)
            | EvelynDatabaseError::InsertCalendarEvent(e) => Some(e),
            _ => None,
        }
    }

    /// The rendering of the cause.
    pub fn cause_text(&self) -> (text: String)
        ensures
            text@ == self.cause_rendered(),
    {
        match self.cause() {
            Some(e) => e.to_string(),
            None => EvelynBaseError::NothingElse.to_string(),
        }
    }

    /// The whole rendering as text, for logs and diagnostics.
    pub fn to_string(&self) -> (text: String)
        ensures
            text@ == self.rendered(),
    {
        let cause: String = self.cause_text();
        String::from_str(self.template()).concat(cause.as_str())
    }
}

/// Whether `part` occurs in `text` as a run of consecutive characters.
pub open spec fn occurs_in(part: Seq<char>, text: Seq<char>) -> bool {
    exists|at: int|
        0 <= at && at + part.len() <= text.len() && #[trigger] text.subrange(
            at,
            at + part.len(),
        ) == part
}

/// A storage failure keeps what the driver reported: the driver's text
/// occurs, whole, in the rendering of the storage failure.
pub proof fn lemma_cause_occurs_in_rendering(error: EvelynDatabaseError)
    ensures
        occurs_in(error.cause_rendered(), error.rendered()),
{
    let at = error.prefix().len() as int;
    assert(error.rendered().subrange(at, at + error.cause_rendered().len())
        =~= error.cause_rendered());
}

} // verus!
