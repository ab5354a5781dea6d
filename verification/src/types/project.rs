//! Projects and their settings.
use vstd::prelude::*;

use crate::types::time::Timestamp;
use crate::types::{Color, Id};

verus! {

/// A Todoist project.
#[derive(Debug, Default, Clone, PartialEq, Eq, PartialOrd, Ord)]
pub struct Project {
    /// The ID of the project.
    pub id: Id,
    /// The name of the project.
    pub name: String,
    /// Description for the project. Only used for teams.
    pub description: String,
    /// Real or temp ID of the workspace of the project. Only used for teams.
    pub workspace_id: u32,
    /// Whether the project is invite-only or visible to everyone in the
    /// workspace; if missing, the workspace's `is_invite_only_default`
    /// applies. Only used for teams.
    pub is_invite_only: Option<bool>,
    /// The status of the project. Only used for teams.
    pub status: ProjectStatus,
    /// If `false`, the project is invite-only and people can't join by link.
    /// If `true`, anyone with a link can see and join it. Only used for
    /// teams.
    pub is_link_sharing_enabled: bool,
    /// The default role a user can have. Only used for teams.
    pub collaborator_role_default: Option<Role>,
    /// The color of the project icon.
    pub color: Color,
    /// The ID of the parent project; `None` for root projects.
    pub parent_id: Option<Id>,
    /// The position of the project among the projects with the same
    /// `parent_id`.
    pub child_order: i32,
    /// Fractional-indexing order key among siblings with the same
    /// `parent_id`. May be `None` for projects not yet migrated, and is
    /// always `None` for workspace projects (ordered via folders instead).
    pub order_key: Option<String>,
    /// Whether the project's sub-projects are collapsed.
    pub is_collapsed: bool,
    /// Whether the project is shared.
    pub shared: bool,
    /// Whether tasks in the project can be assigned to users.
    pub can_assign_tasks: bool,
    /// Whether the project is marked as deleted.
    pub is_deleted: bool,
    /// Whether the project is marked as archived.
    pub is_archived: bool,
    /// Whether the project is a favorite.
    pub is_favorite: bool,
    /// Whether the project is from a canceled subscription.
    pub is_frozen: bool,
    /// The mode in which to render tasks in this project.
    pub view_style: ViewStyle,
    /// The role of the requesting user. Only used for teams.
    pub role: Role,
    /// Whether the project is `Inbox`.
    pub inbox_project: bool,
    /// The ID of the folder which this project is in.
    pub folder_id: Option<Id>,
    /// When the project was created.
    pub created_at: Timestamp,
    /// When the project was last updated.
    pub updated_at: Timestamp,
    /// If `true`, default collaborators are still being added to the project
    /// in the background. Only used for teams.
    pub is_pending_default_collaborator_invites: bool,
    /// Project access configuration.
    pub access: ProjectAccess,
    /// Whether Project Insights is enabled for this project. Only used for
    /// teams.
    pub is_project_insights_enabled: bool,
    /// Fractional-indexing key for the workspace's shared default-ordering
    /// scope (workspace projects and folders together); `None` for personal
    /// projects and for workspace projects not yet migrated.
    default_order_key: Option<String>,
}

impl Project {
    /// The project's key in its workspace's default ordering.
    pub closed spec fn spec_default_order_key(&self) -> Option<Seq<char>> {
        match self.default_order_key {
            Some(k) => Some(k@),
            None => None,
        }
    }

    /// The project with a different workspace ordering key and nothing else
    /// changed.
    pub closed spec fn with_default_order_key(self, key: Option<String>) -> Project {
        Project { default_order_key: key, ..self }
    }

    /// The project's key in its workspace's default ordering.
    pub fn default_order_key(&self) -> (k: Option<&str>)
        ensures
            match k {
                Some(s) => self.spec_default_order_key() == Some(s@),
                None => self.spec_default_order_key() is None,
            },
    {
        match &self.default_order_key {
            Some(k) => Some(k.as_str()),
            None => None,
        }
    }

    /// Replaces the project's key in its workspace's default ordering.
    pub fn set_default_order_key(&mut self, key: Option<String>)
        ensures
            *final(self) == old(self).with_default_order_key(key),
    {
        self.default_order_key = key;
    }
}

/// Who can see a project, and how public viewers may use it.
#[derive(Debug, Default, Clone, Copy, PartialEq, Eq, PartialOrd, Ord, Structural)]
pub struct ProjectAccess {
    pub visibility: ProjectVisibility,
    /// This field only matters for public projects.
    pub configuration: ProjectConfiguration,
}

/// Settings of a public project.
#[derive(Debug, Default, Clone, Copy, PartialEq, Eq, PartialOrd, Ord, Structural)]
pub struct ProjectConfiguration {
    /// Whether collaborator details are hidden from public viewers.
    pub hide_collaborator_details: bool,
    /// Whether public viewers can duplicate this project.
    pub disable_duplication: bool,
}

/// Who can see a project.
#[derive(Debug, Default, Clone, Copy, PartialEq, Eq, PartialOrd, Ord, Structural)]
pub enum ProjectVisibility {
    #[default]
    Restricted,
    Team,
    Public,
}

/// The status of a team project.
#[derive(Debug, Default, Clone, Copy, PartialEq, Eq, PartialOrd, Ord, Structural)]
pub enum ProjectStatus {
    #[default]
    Planned,
    InProgress,
    Paused,
    Completed,
    Canceled,
}

/// A user's role in a project.
#[derive(Debug, Default, Clone, Copy, PartialEq, Eq, PartialOrd, Ord, Structural)]
pub enum Role {
    Creator,
    Admin,
    #[default]
    ReadWrite,
    EditOnly,
    CompleteOnly,
}

/// How a project's tasks are displayed.
#[derive(Debug, Default, Clone, Copy, PartialEq, Eq, PartialOrd, Ord, Structural)]
pub enum ViewStyle {
    #[default]
    List,
    Board,
    Calendar,
}

/// The name the Todoist API uses for a [`ProjectVisibility`].
pub open spec fn visibility_name(x: ProjectVisibility) -> Seq<char> {
    match x {
        ProjectVisibility::Restricted => "restricted"@,
        ProjectVisibility::Team => "team"@,
        ProjectVisibility::Public => "public"@,
    }
}

/// Distinct values have distinct API names, so a name read back gives the
/// value it was written for.
pub proof fn lemma_visibility_name_identifies(a: ProjectVisibility, b: ProjectVisibility)
    ensures
        visibility_name(a) == visibility_name(b) <==> a == b,
{
    reveal_strlit("restricted");
    reveal_strlit("team");
    reveal_strlit("public");
    if visibility_name(a) == visibility_name(b) {
        assert(visibility_name(a).len() == visibility_name(b).len());
        assert(visibility_name(a)[0] == visibility_name(b)[0]);
        assert(visibility_name(a)[1] == visibility_name(b)[1]);
        assert(visibility_name(a)[2] == visibility_name(b)[2]);
        assert(visibility_name(a)[3] == visibility_name(b)[3]);
        assert(visibility_name(a)[4] == visibility_name(b)[4]);
    }
}

/// The API's name for each project visibility.
pub proof fn lemma_visibility_names()
    ensures
        visibility_name(ProjectVisibility::Restricted) == "restricted"@,
        visibility_name(ProjectVisibility::Team) == "team"@,
        visibility_name(ProjectVisibility::Public) == "public"@,
{
}

impl ProjectVisibility {
    /// The name the Todoist API uses for this value.
    pub fn api_name(&self) -> (s: &'static str)
        ensures
            s@ == visibility_name(*self),
    {
        match self {
            ProjectVisibility::Restricted => "restricted",
            ProjectVisibility::Team => "team",
            ProjectVisibility::Public => "public",
        }
    }

    /// The value the Todoist API means by a name, if any.
    pub fn from_api_name(s: &str) -> (r: Option<ProjectVisibility>)
        ensures
            match r {
                Some(x) => s@ == visibility_name(x),
                None => forall|x: ProjectVisibility| s@ != #[trigger] visibility_name(x),
            },
    {
        let name = String::from_str(s);
        if name == String::from_str("restricted") {
            return Some(ProjectVisibility::Restricted);
        }
        if name == String::from_str("team") {
            return Some(ProjectVisibility::Team);
        }
        if name == String::from_str("public") {
            return Some(ProjectVisibility::Public);
        }
        None
    }
}

/// The name the Todoist API uses for a [`ProjectStatus`].
pub open spec fn status_name(x: ProjectStatus) -> Seq<char> {
    match x {
        ProjectStatus::Planned => "PLANNED"@,
        ProjectStatus::InProgress => "IN_PROGRESS"@,
        ProjectStatus::Paused => "PAUSED"@,
        ProjectStatus::Completed => "COMPLETED"@,
        ProjectStatus::Canceled => "CANCELED"@,
    }
}

/// Distinct values have distinct API names, so a name read back gives the
/// value it was written for.
pub proof fn lemma_status_name_identifies(a: ProjectStatus, b: ProjectStatus)
    ensures
        status_name(a) == status_name(b) <==> a == b,
{
    reveal_strlit("PLANNED");
    reveal_strlit("IN_PROGRESS");
    reveal_strlit("PAUSED");
    reveal_strlit("COMPLETED");
    reveal_strlit("CANCELED");
    if status_name(a) == status_name(b) {
        assert(status_name(a).len() == status_name(b).len());
        assert(status_name(a)[0] == status_name(b)[0]);
        assert(status_name(a)[1] == status_name(b)[1]);
        assert(status_name(a)[2] == status_name(b)[2]);
        assert(status_name(a)[3] == status_name(b)[3]);
        assert(status_name(a)[4] == status_name(b)[4]);
    }
}

/// The API's name for each project status.
pub proof fn lemma_status_names()
    ensures
        status_name(ProjectStatus::Planned) == "PLANNED"@,
        status_name(ProjectStatus::InProgress) == "IN_PROGRESS"@,
        status_name(ProjectStatus::Paused) == "PAUSED"@,
        status_name(ProjectStatus::Completed) == "COMPLETED"@,
        status_name(ProjectStatus::Canceled) == "CANCELED"@,
{
}

impl ProjectStatus {
    /// The name the Todoist API uses for this value.
    pub fn api_name(&self) -> (s: &'static str)
        ensures
            s@ == status_name(*self),
    {
        match self {
            ProjectStatus::Planned => "PLANNED",
            ProjectStatus::InProgress => "IN_PROGRESS",
            ProjectStatus::Paused => "PAUSED",
            ProjectStatus::Completed => "COMPLETED",
            ProjectStatus::Canceled => "CANCELED",
        }
    }

    /// The value the Todoist API means by a name, if any.
    pub fn from_api_name(s: &str) -> (r: Option<ProjectStatus>)
        ensures
            match r {
                Some(x) => s@ == status_name(x),
                None => forall|x: ProjectStatus| s@ != #[trigger] status_name(x),
            },
    {
        let name = String::from_str(s);
        if name == String::from_str("PLANNED") {
            return Some(ProjectStatus::Planned);
        }
        if name == String::from_str("IN_PROGRESS") {
            return Some(ProjectStatus::InProgress);
        }
        if name == String::from_str("PAUSED") {
            return Some(ProjectStatus::Paused);
        }
        if name == String::from_str("COMPLETED") {
            return Some(ProjectStatus::Completed);
        }
        if name == String::from_str("CANCELED") {
            return Some(ProjectStatus::Canceled);
        }
        None
    }
}

/// The name the Todoist API uses for a [`Role`].
pub open spec fn role_name(x: Role) -> Seq<char> {
    match x {
        Role::Creator => "CREATOR"@,
        Role::Admin => "ADMIN"@,
        Role::ReadWrite => "READ_WRITE"@,
        Role::EditOnly => "EDIT_ONLY"@,
        Role::CompleteOnly => "COMPLETE_ONLY"@,
    }
}

/// Distinct values have distinct API names, so a name read back gives the
/// value it was written for.
pub proof fn lemma_role_name_identifies(a: Role, b: Role)
    ensures
        role_name(a) == role_name(b) <==> a == b,
{
    reveal_strlit("CREATOR");
    reveal_strlit("ADMIN");
    reveal_strlit("READ_WRITE");
    reveal_strlit("EDIT_ONLY");
    reveal_strlit("COMPLETE_ONLY");
    if role_name(a) == role_name(b) {
        assert(role_name(a).len() == role_name(b).len());
        assert(role_name(a)[0] == role_name(b)[0]);
        assert(role_name(a)[1] == role_name(b)[1]);
        assert(role_name(a)[2] == role_name(b)[2]);
        assert(role_name(a)[3] == role_name(b)[3]);
        assert(role_name(a)[4] == role_name(b)[4]);
    }
}

/// The API's name for each role.
pub proof fn lemma_role_names()
    ensures
        role_name(Role::Creator) == "CREATOR"@,
        role_name(Role::Admin) == "ADMIN"@,
        role_name(Role::ReadWrite) == "READ_WRITE"@,
        role_name(Role::EditOnly) == "EDIT_ONLY"@,
        role_name(Role::CompleteOnly) == "COMPLETE_ONLY"@,
{
}

impl Role {
    /// The name the Todoist API uses for this value.
    pub fn api_name(&self) -> (s: &'static str)
        ensures
            s@ == role_name(*self),
    {
        match self {
            Role::Creator => "CREATOR",
            Role::Admin => "ADMIN",
            Role::ReadWrite => "READ_WRITE",
            Role::EditOnly => "EDIT_ONLY",
            Role::CompleteOnly => "COMPLETE_ONLY",
        }
    }

    /// The value the Todoist API means by a name, if any.
    pub fn from_api_name(s: &str) -> (r: Option<Role>)
        ensures
            match r {
                Some(x) => s@ == role_name(x),
                None => forall|x: Role| s@ != #[trigger] role_name(x),
            },
    {
        let name = String::from_str(s);
        if name == String::from_str("CREATOR") {
            return Some(Role::Creator);
        }
        if name == String::from_str("ADMIN") {
            return Some(Role::Admin);
        }
        if name == String::from_str("READ_WRITE") {
            return Some(Role::ReadWrite);
        }
        if name == String::from_str("EDIT_ONLY") {
            return Some(Role::EditOnly);
        }
        if name == String::from_str("COMPLETE_ONLY") {
            return Some(Role::CompleteOnly);
        }
        None
    }
}

/// The name the Todoist API uses for a [`ViewStyle`].
pub open spec fn view_style_name(x: ViewStyle) -> Seq<char> {
    match x {
        ViewStyle::List => "list"@,
        ViewStyle::Board => "board"@,
        ViewStyle::Calendar => "calendar"@,
    }
}

/// Distinct values have distinct API names, so a name read back gives the
/// value it was written for.
pub proof fn lemma_view_style_name_identifies(a: ViewStyle, b: ViewStyle)
    ensures
        view_style_name(a) == view_style_name(b) <==> a == b,
{
    reveal_strlit("list");
    reveal_strlit("board");
    reveal_strlit("calendar");
    if view_style_name(a) == view_style_name(b) {
        assert(view_style_name(a).len() == view_style_name(b).len());
        assert(view_style_name(a)[0] == view_style_name(b)[0]);
        assert(view_style_name(a)[1] == view_style_name(b)[1]);
        assert(view_style_name(a)[2] == view_style_name(b)[2]);
        assert(view_style_name(a)[3] == view_style_name(b)[3]);
        assert(view_style_name(a)[4] == view_style_name(b)[4]);
    }
}

/// The API's name for each view style.
pub proof fn lemma_view_style_names()
    ensures
        view_style_name(ViewStyle::List) == "list"@,
        view_style_name(ViewStyle::Board) == "board"@,
        view_style_name(ViewStyle::Calendar) == "calendar"@,
{
}

impl ViewStyle {
    /// The name the Todoist API uses for this value.
    pub fn api_name(&self) -> (s: &'static str)
        ensures
            s@ == view_style_name(*self),
    {
        match self {
            ViewStyle::List => "list",
            ViewStyle::Board => "board",
            ViewStyle::Calendar => "calendar",
        }
    }

    /// The value the Todoist API means by a name, if any.
    pub fn from_api_name(s: &str) -> (r: Option<ViewStyle>)
        ensures
            match r {
                Some(x) => s@ == view_style_name(x),
                None => forall|x: ViewStyle| s@ != #[trigger] view_style_name(x),
            },
    {
        let name = String::from_str(s);
        if name == String::from_str("list") {
            return Some(ViewStyle::List);
        }
        if name == String::from_str("board") {
            return Some(ViewStyle::Board);
        }
        if name == String::from_str("calendar") {
            return Some(ViewStyle::Calendar);
        }
        None
    }
}

} // verus!
