//! Commands that add, change, move, archive and delete projects, and
//! builders for them.
use vstd::prelude::*;

use crate::command::CommandArgs;
use crate::types::project::{ProjectAccess, ProjectStatus, Role, ViewStyle};
use crate::types::{Color, Id};

verus! {

/// Add a new project.
#[derive(Debug, Clone, PartialEq, Eq)]
pub struct AddProject {
    /// The name of the project.
    pub name: String,
    /// Description for the project (up to 1024 characters). Only used for
    /// teams.
    pub description: Option<String>,
    /// The status of the project.
    pub status: Option<ProjectStatus>,
    /// The color of the project icon.
    pub color: Option<Color>,
    /// The ID of the parent project. Set to `None` for root projects.
    pub parent_id: Option<Id>,
    /// The ID of the folder, when creating projects in workspaces. Set to
    /// `None` for root projects.
    pub folder_id: Option<String>,
    /// The position of the project among the projects with the same
    /// `parent_id`.
    pub child_order: Option<i32>,
    /// Fractional-indexing order key for the new project. When omitted, the
    /// backend places the project at the bottom of its parent's list; a key
    /// already in use is adjusted to just after that position and the
    /// corrected value is returned via sync.
    pub order_key: Option<String>,
    /// Whether the project is a favorite.
    pub is_favorite: Option<bool>,
    /// The way the project is displayed within Todoist clients.
    pub view_style: Option<ViewStyle>,
    /// ID of the workspace the project should belong to.
    pub workspace_id: Option<Id>,
    /// Whether the project is invite-only or visible for everyone in the
    /// workspace. If `None`, the workspace's `is_invite_only_default` is used.
    /// Only used for teams.
    pub is_invite_only: Option<bool>,
    /// If `false`, the project is invite-only and people can't join by link.
    /// If `true`, anyone with a link can see and join it. Only used for teams.
    pub is_link_sharing_enabled: Option<bool>,
    /// The default role a user can have. Only used for teams.
    pub collaborator_role_default: Option<Role>,
    /// Project access configuration.
    pub access: Option<ProjectAccess>,
    /// Whether Project Insights is enabled for this project. Defaults to
    /// `true`. Only used for teams.
    pub is_project_insights_enabled: bool,
}

impl CommandArgs for AddProject {
    const TYPE: &'static str = "project_add";
    const CREATES_RESOURCE: bool = true;
}

/// Builds a [`AddProject`]; start with [`AddProject::builder`].
pub struct AddProjectBuilder {
    pub name: Option<String>,
    pub description: Option<String>,
    pub status: Option<ProjectStatus>,
    pub color: Option<Color>,
    pub parent_id: Option<Id>,
    pub folder_id: Option<String>,
    pub child_order: Option<i32>,
    pub order_key: Option<String>,
    pub is_favorite: Option<bool>,
    pub view_style: Option<ViewStyle>,
    pub workspace_id: Option<Id>,
    pub is_invite_only: Option<bool>,
    pub is_link_sharing_enabled: Option<bool>,
    pub collaborator_role_default: Option<Role>,
    pub access: Option<ProjectAccess>,
    pub is_project_insights_enabled: Option<bool>,
}

impl AddProject {
    /// A builder with nothing set yet.
    pub fn builder() -> (b: AddProjectBuilder)
        ensures
            b.name is None,
            b.description is None,
            b.status is None,
            b.color is None,
            b.parent_id is None,
            b.folder_id is None,
            b.child_order is None,
            b.order_key is None,
            b.is_favorite is None,
            b.view_style is None,
            b.workspace_id is None,
            b.is_invite_only is None,
            b.is_link_sharing_enabled is None,
            b.collaborator_role_default is None,
            b.access is None,
            b.is_project_insights_enabled is None,
    {
        AddProjectBuilder { name: None, description: None, status: None, color: None, parent_id: None, folder_id: None, child_order: None, order_key: None, is_favorite: None, view_style: None, workspace_id: None, is_invite_only: None, is_link_sharing_enabled: None, collaborator_role_default: None, access: None, is_project_insights_enabled: None }
    }
}

impl AddProjectBuilder {
    /// Sets `name`.
    pub fn name(self, value: &str) -> (b: AddProjectBuilder)
        ensures
            b == (AddProjectBuilder { name: b.name, ..self }),
            b.name matches Some(v) && v@ == value@,
    {
        AddProjectBuilder { name: Some(String::from_str(value)), ..self }
    }

    /// Sets `description`.
    pub fn description(self, value: &str) -> (b: AddProjectBuilder)
        ensures
            b == (AddProjectBuilder { description: b.description, ..self }),
            b.description matches Some(v) && v@ == value@,
    {
        AddProjectBuilder { description: Some(String::from_str(value)), ..self }
    }

    /// Sets or clears `description`.
    pub fn maybe_description(self, value: Option<&str>) -> (b: AddProjectBuilder)
        ensures
            b == (AddProjectBuilder { description: b.description, ..self }),
            match value {
                Some(s) => b.description matches Some(v) && v@ == s@,
                None => b.description is None,
            },
    {
        let v = match value {
            Some(s) => Some(String::from_str(s)),
            None => None,
        };
        AddProjectBuilder { description: v, ..self }
    }

    /// Sets `status`.
    pub fn status(self, value: ProjectStatus) -> (b: AddProjectBuilder)
        ensures
            b == (AddProjectBuilder { status: b.status, ..self }),
            b.status matches Some(v) && v == value,
    {
        AddProjectBuilder { status: Some(value), ..self }
    }

    /// Sets or clears `status`.
    pub fn maybe_status(self, value: Option<ProjectStatus>) -> (b: AddProjectBuilder)
        ensures
            b == (AddProjectBuilder { status: b.status, ..self }),
            b.status == value,
    {
        AddProjectBuilder { status: value, ..self }
    }

    /// Sets `color`.
    pub fn color(self, value: Color) -> (b: AddProjectBuilder)
        ensures
            b == (AddProjectBuilder { color: b.color, ..self }),
            b.color matches Some(v) && v == value,
    {
        AddProjectBuilder { color: Some(value), ..self }
    }

    /// Sets or clears `color`.
    pub fn maybe_color(self, value: Option<Color>) -> (b: AddProjectBuilder)
        ensures
            b == (AddProjectBuilder { color: b.color, ..self }),
            b.color == value,
    {
        AddProjectBuilder { color: value, ..self }
    }

    /// Sets `parent_id`.
    pub fn parent_id(self, value: &str) -> (b: AddProjectBuilder)
        ensures
            b == (AddProjectBuilder { parent_id: b.parent_id, ..self }),
            b.parent_id matches Some(v) && v.0@ == value@,
    {
        AddProjectBuilder { parent_id: Some(Id(String::from_str(value))), ..self }
    }

    /// Sets or clears `parent_id`.
    pub fn maybe_parent_id(self, value: Option<&str>) -> (b: AddProjectBuilder)
        ensures
            b == (AddProjectBuilder { parent_id: b.parent_id, ..self }),
            match value {
                Some(s) => b.parent_id matches Some(v) && v.0@ == s@,
                None => b.parent_id is None,
            },
    {
        let v = match value {
            Some(s) => Some(Id(String::from_str(s))),
            None => None,
        };
        AddProjectBuilder { parent_id: v, ..self }
    }

    /// Sets `folder_id`.
    pub fn folder_id(self, value: &str) -> (b: AddProjectBuilder)
        ensures
            b == (AddProjectBuilder { folder_id: b.folder_id, ..self }),
            b.folder_id matches Some(v) && v@ == value@,
    {
        AddProjectBuilder { folder_id: Some(String::from_str(value)), ..self }
    }

    /// Sets or clears `folder_id`.
    pub fn maybe_folder_id(self, value: Option<&str>) -> (b: AddProjectBuilder)
        ensures
            b == (AddProjectBuilder { folder_id: b.folder_id, ..self }),
            match value {
                Some(s) => b.folder_id matches Some(v) && v@ == s@,
                None => b.folder_id is None,
            },
    {
        let v = match value {
            Some(s) => Some(String::from_str(s)),
            None => None,
        };
        AddProjectBuilder { folder_id: v, ..self }
    }

    /// Sets `child_order`.
    pub fn child_order(self, value: i32) -> (b: AddProjectBuilder)
        ensures
            b == (AddProjectBuilder { child_order: b.child_order, ..self }),
            b.child_order matches Some(v) && v == value,
    {
        AddProjectBuilder { child_order: Some(value), ..self }
    }

    /// Sets or clears `child_order`.
    pub fn maybe_child_order(self, value: Option<i32>) -> (b: AddProjectBuilder)
        ensures
            b == (AddProjectBuilder { child_order: b.child_order, ..self }),
            b.child_order == value,
    {
        AddProjectBuilder { child_order: value, ..self }
    }

    /// Sets `order_key`.
    pub fn order_key(self, value: &str) -> (b: AddProjectBuilder)
        ensures
            b == (AddProjectBuilder { order_key: b.order_key, ..self }),
            b.order_key matches Some(v) && v@ == value@,
    {
        AddProjectBuilder { order_key: Some(String::from_str(value)), ..self }
    }

    /// Sets or clears `order_key`.
    pub fn maybe_order_key(self, value: Option<&str>) -> (b: AddProjectBuilder)
        ensures
            b == (AddProjectBuilder { order_key: b.order_key, ..self }),
            match value {
                Some(s) => b.order_key matches Some(v) && v@ == s@,
                None => b.order_key is None,
            },
    {
        let v = match value {
            Some(s) => Some(String::from_str(s)),
            None => None,
        };
        AddProjectBuilder { order_key: v, ..self }
    }

    /// Sets `is_favorite`.
    pub fn is_favorite(self, value: bool) -> (b: AddProjectBuilder)
        ensures
            b == (AddProjectBuilder { is_favorite: b.is_favorite, ..self }),
            b.is_favorite matches Some(v) && v == value,
    {
        AddProjectBuilder { is_favorite: Some(value), ..self }
    }

    /// Sets or clears `is_favorite`.
    pub fn maybe_is_favorite(self, value: Option<bool>) -> (b: AddProjectBuilder)
        ensures
            b == (AddProjectBuilder { is_favorite: b.is_favorite, ..self }),
            b.is_favorite == value,
    {
        AddProjectBuilder { is_favorite: value, ..self }
    }

    /// Sets `view_style`.
    pub fn view_style(self, value: ViewStyle) -> (b: AddProjectBuilder)
        ensures
            b == (AddProjectBuilder { view_style: b.view_style, ..self }),
            b.view_style matches Some(v) && v == value,
    {
        AddProjectBuilder { view_style: Some(value), ..self }
    }

    /// Sets or clears `view_style`.
    pub fn maybe_view_style(self, value: Option<ViewStyle>) -> (b: AddProjectBuilder)
        ensures
            b == (AddProjectBuilder { view_style: b.view_style, ..self }),
            b.view_style == value,
    {
        AddProjectBuilder { view_style: value, ..self }
    }

    /// Sets `workspace_id`.
    pub fn workspace_id(self, value: &str) -> (b: AddProjectBuilder)
        ensures
            b == (AddProjectBuilder { workspace_id: b.workspace_id, ..self }),
            b.workspace_id matches Some(v) && v.0@ == value@,
    {
        AddProjectBuilder { workspace_id: Some(Id(String::from_str(value))), ..self }
    }

    /// Sets or clears `workspace_id`.
    pub fn maybe_workspace_id(self, value: Option<&str>) -> (b: AddProjectBuilder)
        ensures
            b == (AddProjectBuilder { workspace_id: b.workspace_id, ..self }),
            match value {
                Some(s) => b.workspace_id matches Some(v) && v.0@ == s@,
                None => b.workspace_id is None,
            },
    {
        let v = match value {
            Some(s) => Some(Id(String::from_str(s))),
            None => None,
        };
        AddProjectBuilder { workspace_id: v, ..self }
    }

    /// Sets `is_invite_only`.
    pub fn is_invite_only(self, value: bool) -> (b: AddProjectBuilder)
        ensures
            b == (AddProjectBuilder { is_invite_only: b.is_invite_only, ..self }),
            b.is_invite_only matches Some(v) && v == value,
    {
        AddProjectBuilder { is_invite_only: Some(value), ..self }
    }

    /// Sets or clears `is_invite_only`.
    pub fn maybe_is_invite_only(self, value: Option<bool>) -> (b: AddProjectBuilder)
        ensures
            b == (AddProjectBuilder { is_invite_only: b.is_invite_only, ..self }),
            b.is_invite_only == value,
    {
        AddProjectBuilder { is_invite_only: value, ..self }
    }

    /// Sets `is_link_sharing_enabled`.
    pub fn is_link_sharing_enabled(self, value: bool) -> (b: AddProjectBuilder)
        ensures
            b == (AddProjectBuilder { is_link_sharing_enabled: b.is_link_sharing_enabled, ..self }),
            b.is_link_sharing_enabled matches Some(v) && v == value,
    {
        AddProjectBuilder { is_link_sharing_enabled: Some(value), ..self }
    }

    /// Sets or clears `is_link_sharing_enabled`.
    pub fn maybe_is_link_sharing_enabled(self, value: Option<bool>) -> (b: AddProjectBuilder)
        ensures
            b == (AddProjectBuilder { is_link_sharing_enabled: b.is_link_sharing_enabled, ..self }),
            b.is_link_sharing_enabled == value,
    {
        AddProjectBuilder { is_link_sharing_enabled: value, ..self }
    }

    /// Sets `collaborator_role_default`.
    pub fn collaborator_role_default(self, value: Role) -> (b: AddProjectBuilder)
        ensures
            b == (AddProjectBuilder { collaborator_role_default: b.collaborator_role_default, ..self }),
            b.collaborator_role_default matches Some(v) && v == value,
    {
        AddProjectBuilder { collaborator_role_default: Some(value), ..self }
    }

    /// Sets or clears `collaborator_role_default`.
    pub fn maybe_collaborator_role_default(self, value: Option<Role>) -> (b: AddProjectBuilder)
        ensures
            b == (AddProjectBuilder { collaborator_role_default: b.collaborator_role_default, ..self }),
            b.collaborator_role_default == value,
    {
        AddProjectBuilder { collaborator_role_default: value, ..self }
    }

    /// Sets `access`.
    pub fn access(self, value: ProjectAccess) -> (b: AddProjectBuilder)
        ensures
            b == (AddProjectBuilder { access: b.access, ..self }),
            b.access matches Some(v) && v == value,
    {
        AddProjectBuilder { access: Some(value), ..self }
    }

    /// Sets or clears `access`.
    pub fn maybe_access(self, value: Option<ProjectAccess>) -> (b: AddProjectBuilder)
        ensures
            b == (AddProjectBuilder { access: b.access, ..self }),
            b.access == value,
    {
        AddProjectBuilder { access: value, ..self }
    }

    /// Sets `is_project_insights_enabled`.
    pub fn is_project_insights_enabled(self, value: bool) -> (b: AddProjectBuilder)
        ensures
            b == (AddProjectBuilder { is_project_insights_enabled: b.is_project_insights_enabled, ..self }),
            b.is_project_insights_enabled matches Some(v) && v == value,
    {
        AddProjectBuilder { is_project_insights_enabled: Some(value), ..self }
    }

    /// The command, once every required field is set.
    pub fn build(self) -> (r: AddProject)
        requires
            self.name is Some,
        ensures
            r.name == self.name.unwrap(),
            r.description == self.description,
            r.status == self.status,
            r.color == self.color,
            r.parent_id == self.parent_id,
            r.folder_id == self.folder_id,
            r.child_order == self.child_order,
            r.order_key == self.order_key,
            r.is_favorite == self.is_favorite,
            r.view_style == self.view_style,
            r.workspace_id == self.workspace_id,
            r.is_invite_only == self.is_invite_only,
            r.is_link_sharing_enabled == self.is_link_sharing_enabled,
            r.collaborator_role_default == self.collaborator_role_default,
            r.access == self.access,
            r.is_project_insights_enabled == match self.is_project_insights_enabled { Some(v) => v, None => true },
    {
        AddProject {
            name: self.name.unwrap(),
            description: self.description,
            status: self.status,
            color: self.color,
            parent_id: self.parent_id,
            folder_id: self.folder_id,
            child_order: self.child_order,
            order_key: self.order_key,
            is_favorite: self.is_favorite,
            view_style: self.view_style,
            workspace_id: self.workspace_id,
            is_invite_only: self.is_invite_only,
            is_link_sharing_enabled: self.is_link_sharing_enabled,
            collaborator_role_default: self.collaborator_role_default,
            access: self.access,
            is_project_insights_enabled: match self.is_project_insights_enabled {
                Some(v) => v,
                None => true,
            },
        }
    }
}

/// Update an existing project.
#[derive(Debug, Clone, PartialEq, Eq)]
pub struct UpdateProject {
    /// The ID of the project to be updated.
    pub id: Id,
    /// The name of the project.
    pub name: Option<String>,
    /// The color of the project icon.
    pub color: Option<Color>,
    /// Whether the project's sub-projects are collapsed.
    pub is_collapsed: Option<bool>,
    /// Fractional-indexing order key for the project; a key already in use is
    /// adjusted to just after that position and the corrected value is
    /// returned via sync.
    pub order_key: Option<String>,
    /// Fractional-indexing key for the workspace's shared default-ordering
    /// scope. Only accepted for workspace projects; when omitted the current
    /// key is kept. Only used for teams.
    pub default_order_key: Option<String>,
    /// Whether the project is a favorite.
    pub is_favorite: Option<bool>,
    /// The way the project is displayed within Todoist clients.
    pub view_style: Option<ViewStyle>,
    /// Description for the project (up to 1024 characters). Only used for
    /// teams.
    pub description: Option<String>,
    /// The status of the project.
    pub status: Option<ProjectStatus>,
    /// If `false`, the project is invite-only and people can't join by link.
    /// If `true`, anyone with a link can see and join it. Only used for teams.
    pub is_link_sharing_enabled: Option<bool>,
    /// Project access configuration.
    pub access: Option<ProjectAccess>,
    /// Whether Project Insights is enabled for this project. Only used for
    /// teams.
    pub is_project_insights_enabled: bool,
    /// The default role a user can have. Only used for teams.
    pub collaborator_role_default: Option<Role>,
}

impl CommandArgs for UpdateProject {
    const TYPE: &'static str = "project_update";
    const CREATES_RESOURCE: bool = false;
}

/// Builds a [`UpdateProject`]; start with [`UpdateProject::builder`].
pub struct UpdateProjectBuilder {
    pub id: Option<Id>,
    pub name: Option<String>,
    pub color: Option<Color>,
    pub is_collapsed: Option<bool>,
    pub order_key: Option<String>,
    pub default_order_key: Option<String>,
    pub is_favorite: Option<bool>,
    pub view_style: Option<ViewStyle>,
    pub description: Option<String>,
    pub status: Option<ProjectStatus>,
    pub is_link_sharing_enabled: Option<bool>,
    pub access: Option<ProjectAccess>,
    pub is_project_insights_enabled: Option<bool>,
    pub collaborator_role_default: Option<Role>,
}

impl UpdateProject {
    /// A builder with nothing set yet.
    pub fn builder() -> (b: UpdateProjectBuilder)
        ensures
            b.id is None,
            b.name is None,
            b.color is None,
            b.is_collapsed is None,
            b.order_key is None,
            b.default_order_key is None,
            b.is_favorite is None,
            b.view_style is None,
            b.description is None,
            b.status is None,
            b.is_link_sharing_enabled is None,
            b.access is None,
            b.is_project_insights_enabled is None,
            b.collaborator_role_default is None,
    {
        UpdateProjectBuilder { id: None, name: None, color: None, is_collapsed: None, order_key: None, default_order_key: None, is_favorite: None, view_style: None, description: None, status: None, is_link_sharing_enabled: None, access: None, is_project_insights_enabled: None, collaborator_role_default: None }
    }
}

impl UpdateProjectBuilder {
    /// Sets `id`.
    pub fn id(self, value: &str) -> (b: UpdateProjectBuilder)
        ensures
            b == (UpdateProjectBuilder { id: b.id, ..self }),
            b.id matches Some(v) && v.0@ == value@,
    {
        UpdateProjectBuilder { id: Some(Id(String::from_str(value))), ..self }
    }

    /// Sets `name`.
    pub fn name(self, value: &str) -> (b: UpdateProjectBuilder)
        ensures
            b == (UpdateProjectBuilder { name: b.name, ..self }),
            b.name matches Some(v) && v@ == value@,
    {
        UpdateProjectBuilder { name: Some(String::from_str(value)), ..self }
    }

    /// Sets or clears `name`.
    pub fn maybe_name(self, value: Option<&str>) -> (b: UpdateProjectBuilder)
        ensures
            b == (UpdateProjectBuilder { name: b.name, ..self }),
            match value {
                Some(s) => b.name matches Some(v) && v@ == s@,
                None => b.name is None,
            },
    {
        let v = match value {
            Some(s) => Some(String::from_str(s)),
            None => None,
        };
        UpdateProjectBuilder { name: v, ..self }
    }

    /// Sets `color`.
    pub fn color(self, value: Color) -> (b: UpdateProjectBuilder)
        ensures
            b == (UpdateProjectBuilder { color: b.color, ..self }),
            b.color matches Some(v) && v == value,
    {
        UpdateProjectBuilder { color: Some(value), ..self }
    }

    /// Sets or clears `color`.
    pub fn maybe_color(self, value: Option<Color>) -> (b: UpdateProjectBuilder)
        ensures
            b == (UpdateProjectBuilder { color: b.color, ..self }),
            b.color == value,
    {
        UpdateProjectBuilder { color: value, ..self }
    }

    /// Sets `is_collapsed`.
    pub fn is_collapsed(self, value: bool) -> (b: UpdateProjectBuilder)
        ensures
            b == (UpdateProjectBuilder { is_collapsed: b.is_collapsed, ..self }),
            b.is_collapsed matches Some(v) && v == value,
    {
        UpdateProjectBuilder { is_collapsed: Some(value), ..self }
    }

    /// Sets or clears `is_collapsed`.
    pub fn maybe_is_collapsed(self, value: Option<bool>) -> (b: UpdateProjectBuilder)
        ensures
            b == (UpdateProjectBuilder { is_collapsed: b.is_collapsed, ..self }),
            b.is_collapsed == value,
    {
        UpdateProjectBuilder { is_collapsed: value, ..self }
    }

    /// Sets `order_key`.
    pub fn order_key(self, value: &str) -> (b: UpdateProjectBuilder)
        ensures
            b == (UpdateProjectBuilder { order_key: b.order_key, ..self }),
            b.order_key matches Some(v) && v@ == value@,
    {
        UpdateProjectBuilder { order_key: Some(String::from_str(value)), ..self }
    }

    /// Sets or clears `order_key`.
    pub fn maybe_order_key(self, value: Option<&str>) -> (b: UpdateProjectBuilder)
        ensures
            b == (UpdateProjectBuilder { order_key: b.order_key, ..self }),
            match value {
                Some(s) => b.order_key matches Some(v) && v@ == s@,
                None => b.order_key is None,
            },
    {
        let v = match value {
            Some(s) => Some(String::from_str(s)),
            None => None,
        };
        UpdateProjectBuilder { order_key: v, ..self }
    }

    /// Sets `default_order_key`.
    pub fn default_order_key(self, value: &str) -> (b: UpdateProjectBuilder)
        ensures
            b == (UpdateProjectBuilder { default_order_key: b.default_order_key, ..self }),
            b.default_order_key matches Some(v) && v@ == value@,
    {
        UpdateProjectBuilder { default_order_key: Some(String::from_str(value)), ..self }
    }

    /// Sets or clears `default_order_key`.
    pub fn maybe_default_order_key(self, value: Option<&str>) -> (b: UpdateProjectBuilder)
        ensures
            b == (UpdateProjectBuilder { default_order_key: b.default_order_key, ..self }),
            match value {
                Some(s) => b.default_order_key matches Some(v) && v@ == s@,
                None => b.default_order_key is None,
            },
    {
        let v = match value {
            Some(s) => Some(String::from_str(s)),
            None => None,
        };
        UpdateProjectBuilder { default_order_key: v, ..self }
    }

    /// Sets `is_favorite`.
    pub fn is_favorite(self, value: bool) -> (b: UpdateProjectBuilder)
        ensures
            b == (UpdateProjectBuilder { is_favorite: b.is_favorite, ..self }),
            b.is_favorite matches Some(v) && v == value,
    {
        UpdateProjectBuilder { is_favorite: Some(value), ..self }
    }

    /// Sets or clears `is_favorite`.
    pub fn maybe_is_favorite(self, value: Option<bool>) -> (b: UpdateProjectBuilder)
        ensures
            b == (UpdateProjectBuilder { is_favorite: b.is_favorite, ..self }),
            b.is_favorite == value,
    {
        UpdateProjectBuilder { is_favorite: value, ..self }
    }

    /// Sets `view_style`.
    pub fn view_style(self, value: ViewStyle) -> (b: UpdateProjectBuilder)
        ensures
            b == (UpdateProjectBuilder { view_style: b.view_style, ..self }),
            b.view_style matches Some(v) && v == value,
    {
        UpdateProjectBuilder { view_style: Some(value), ..self }
    }

    /// Sets or clears `view_style`.
    pub fn maybe_view_style(self, value: Option<ViewStyle>) -> (b: UpdateProjectBuilder)
        ensures
            b == (UpdateProjectBuilder { view_style: b.view_style, ..self }),
            b.view_style == value,
    {
        UpdateProjectBuilder { view_style: value, ..self }
    }

    /// Sets `description`.
    pub fn description(self, value: &str) -> (b: UpdateProjectBuilder)
        ensures
            b == (UpdateProjectBuilder { description: b.description, ..self }),
            b.description matches Some(v) && v@ == value@,
    {
        UpdateProjectBuilder { description: Some(String::from_str(value)), ..self }
    }

    /// Sets or clears `description`.
    pub fn maybe_description(self, value: Option<&str>) -> (b: UpdateProjectBuilder)
        ensures
            b == (UpdateProjectBuilder { description: b.description, ..self }),
            match value {
                Some(s) => b.description matches Some(v) && v@ == s@,
                None => b.description is None,
            },
    {
        let v = match value {
            Some(s) => Some(String::from_str(s)),
            None => None,
        };
        UpdateProjectBuilder { description: v, ..self }
    }

    /// Sets `status`.
    pub fn status(self, value: ProjectStatus) -> (b: UpdateProjectBuilder)
        ensures
            b == (UpdateProjectBuilder { status: b.status, ..self }),
            b.status matches Some(v) && v == value,
    {
        UpdateProjectBuilder { status: Some(value), ..self }
    }

    /// Sets or clears `status`.
    pub fn maybe_status(self, value: Option<ProjectStatus>) -> (b: UpdateProjectBuilder)
        ensures
            b == (UpdateProjectBuilder { status: b.status, ..self }),
            b.status == value,
    {
        UpdateProjectBuilder { status: value, ..self }
    }

    /// Sets `is_link_sharing_enabled`.
    pub fn is_link_sharing_enabled(self, value: bool) -> (b: UpdateProjectBuilder)
        ensures
            b == (UpdateProjectBuilder { is_link_sharing_enabled: b.is_link_sharing_enabled, ..self }),
            b.is_link_sharing_enabled matches Some(v) && v == value,
    {
        UpdateProjectBuilder { is_link_sharing_enabled: Some(value), ..self }
    }

    /// Sets or clears `is_link_sharing_enabled`.
    pub fn maybe_is_link_sharing_enabled(self, value: Option<bool>) -> (b: UpdateProjectBuilder)
        ensures
            b == (UpdateProjectBuilder { is_link_sharing_enabled: b.is_link_sharing_enabled, ..self }),
            b.is_link_sharing_enabled == value,
    {
        UpdateProjectBuilder { is_link_sharing_enabled: value, ..self }
    }

    /// Sets `access`.
    pub fn access(self, value: ProjectAccess) -> (b: UpdateProjectBuilder)
        ensures
            b == (UpdateProjectBuilder { access: b.access, ..self }),
            b.access matches Some(v) && v == value,
    {
        UpdateProjectBuilder { access: Some(value), ..self }
    }

    /// Sets or clears `access`.
    pub fn maybe_access(self, value: Option<ProjectAccess>) -> (b: UpdateProjectBuilder)
        ensures
            b == (UpdateProjectBuilder { access: b.access, ..self }),
            b.access == value,
    {
        UpdateProjectBuilder { access: value, ..self }
    }

    /// Sets `is_project_insights_enabled`.
    pub fn is_project_insights_enabled(self, value: bool) -> (b: UpdateProjectBuilder)
        ensures
            b == (UpdateProjectBuilder { is_project_insights_enabled: b.is_project_insights_enabled, ..self }),
            b.is_project_insights_enabled matches Some(v) && v == value,
    {
        UpdateProjectBuilder { is_project_insights_enabled: Some(value), ..self }
    }

    /// Sets `collaborator_role_default`.
    pub fn collaborator_role_default(self, value: Role) -> (b: UpdateProjectBuilder)
        ensures
            b == (UpdateProjectBuilder { collaborator_role_default: b.collaborator_role_default, ..self }),
            b.collaborator_role_default matches Some(v) && v == value,
    {
        UpdateProjectBuilder { collaborator_role_default: Some(value), ..self }
    }

    /// Sets or clears `collaborator_role_default`.
    pub fn maybe_collaborator_role_default(self, value: Option<Role>) -> (b: UpdateProjectBuilder)
        ensures
            b == (UpdateProjectBuilder { collaborator_role_default: b.collaborator_role_default, ..self }),
            b.collaborator_role_default == value,
    {
        UpdateProjectBuilder { collaborator_role_default: value, ..self }
    }

    /// The command, once every required field is set.
    pub fn build(self) -> (r: UpdateProject)
        requires
            self.id is Some,
            self.is_project_insights_enabled is Some,
        ensures
            r.id == self.id.unwrap(),
            r.name == self.name,
            r.color == self.color,
            r.is_collapsed == self.is_collapsed,
            r.order_key == self.order_key,
            r.default_order_key == self.default_order_key,
            r.is_favorite == self.is_favorite,
            r.view_style == self.view_style,
            r.description == self.description,
            r.status == self.status,
            r.is_link_sharing_enabled == self.is_link_sharing_enabled,
            r.access == self.access,
            r.is_project_insights_enabled == self.is_project_insights_enabled.unwrap(),
            r.collaborator_role_default == self.collaborator_role_default,
    {
        UpdateProject {
            id: self.id.unwrap(),
            name: self.name,
            color: self.color,
            is_collapsed: self.is_collapsed,
            order_key: self.order_key,
            default_order_key: self.default_order_key,
            is_favorite: self.is_favorite,
            view_style: self.view_style,
            description: self.description,
            status: self.status,
            is_link_sharing_enabled: self.is_link_sharing_enabled,
            access: self.access,
            is_project_insights_enabled: self.is_project_insights_enabled.unwrap(),
            collaborator_role_default: self.collaborator_role_default,
        }
    }
}

/// Update the parent project of a project.
#[derive(Debug, Clone, PartialEq, Eq)]
pub struct MoveProject {
    /// The ID of the project.
    pub id: String,
    /// The ID of the parent project. If `None`, the project is moved to the
    /// root.
    pub parent_id: Option<String>,
}

impl CommandArgs for MoveProject {
    const TYPE: &'static str = "project_move";
    const CREATES_RESOURCE: bool = false;
}

/// Builds a [`MoveProject`]; start with [`MoveProject::builder`].
pub struct MoveProjectBuilder {
    pub id: Option<String>,
    pub parent_id: Option<String>,
}

impl MoveProject {
    /// A builder with nothing set yet.
    pub fn builder() -> (b: MoveProjectBuilder)
        ensures
            b.id is None,
            b.parent_id is None,
    {
        MoveProjectBuilder { id: None, parent_id: None }
    }
}

impl MoveProjectBuilder {
    /// Sets `id`.
    pub fn id(self, value: &str) -> (b: MoveProjectBuilder)
        ensures
            b == (MoveProjectBuilder { id: b.id, ..self }),
            b.id matches Some(v) && v@ == value@,
    {
        MoveProjectBuilder { id: Some(String::from_str(value)), ..self }
    }

    /// Sets `parent_id`.
    pub fn parent_id(self, value: &str) -> (b: MoveProjectBuilder)
        ensures
            b == (MoveProjectBuilder { parent_id: b.parent_id, ..self }),
            b.parent_id matches Some(v) && v@ == value@,
    {
        MoveProjectBuilder { parent_id: Some(String::from_str(value)), ..self }
    }

    /// Sets or clears `parent_id`.
    pub fn maybe_parent_id(self, value: Option<&str>) -> (b: MoveProjectBuilder)
        ensures
            b == (MoveProjectBuilder { parent_id: b.parent_id, ..self }),
            match value {
                Some(s) => b.parent_id matches Some(v) && v@ == s@,
                None => b.parent_id is None,
            },
    {
        let v = match value {
            Some(s) => Some(String::from_str(s)),
            None => None,
        };
        MoveProjectBuilder { parent_id: v, ..self }
    }

    /// The command, once every required field is set.
    pub fn build(self) -> (r: MoveProject)
        requires
            self.id is Some,
        ensures
            r.id == self.id.unwrap(),
            r.parent_id == self.parent_id,
    {
        MoveProject {
            id: self.id.unwrap(),
            parent_id: self.parent_id,
        }
    }
}

/// Moves a personal project into the target workspace.
///
/// - Moving a parent project also moves all its child projects.
/// - Without a `folder_id`, child projects are moved into a folder named
///   after the parent project; with one, parent and children go into it.
/// - A project cannot be moved to another workspace, or to the user's
///   personal workspace, this way.
/// - Collaborators who are not members of the target workspace are added as
///   guests, if the workspace allows guests.
#[derive(Debug, Clone, PartialEq, Eq)]
pub struct MoveProjectIntoWorkspace {
    /// The ID of the project (sent as `project_id`).
    pub id: Id,
    /// The ID of the workspace the project will be moved into.
    pub workspace_id: Id,
    /// Whether the project is restricted or open to all workspace members.
    pub is_invite_only: Option<bool>,
    /// If provided, the project and any child projects will be moved into this
    /// workspace folder.
    pub folder_id: Option<Id>,
    /// Soon to be deprecated and always `true`.
    use_lro: bool,
}

impl CommandArgs for MoveProjectIntoWorkspace {
    const TYPE: &'static str = "project_move_to_workspace";
    const CREATES_RESOURCE: bool = false;
}

/// The contents of a [`MoveProjectIntoWorkspace`].
pub struct MoveProjectIntoWorkspaceView {
    pub id: Id,
    pub workspace_id: Id,
    pub is_invite_only: Option<bool>,
    pub folder_id: Option<Id>,
    pub use_lro: bool,
}

impl View for MoveProjectIntoWorkspace {
    type V = MoveProjectIntoWorkspaceView;

    closed spec fn view(&self) -> MoveProjectIntoWorkspaceView {
        MoveProjectIntoWorkspaceView { id: self.id, workspace_id: self.workspace_id, is_invite_only: self.is_invite_only, folder_id: self.folder_id, use_lro: self.use_lro }
    }
}

impl MoveProjectIntoWorkspace {
    /// Always `true`: the API wants this flag set.
    pub fn use_lro(&self) -> (b: bool)
        ensures
            b == self@.use_lro,
    {
        self.use_lro
    }
}

/// Builds a [`MoveProjectIntoWorkspace`]; start with [`MoveProjectIntoWorkspace::builder`].
pub struct MoveProjectIntoWorkspaceBuilder {
    pub id: Option<Id>,
    pub workspace_id: Option<Id>,
    pub is_invite_only: Option<bool>,
    pub folder_id: Option<Id>,
}

impl MoveProjectIntoWorkspace {
    /// A builder with nothing set yet.
    pub fn builder() -> (b: MoveProjectIntoWorkspaceBuilder)
        ensures
            b.id is None,
            b.workspace_id is None,
            b.is_invite_only is None,
            b.folder_id is None,
    {
        MoveProjectIntoWorkspaceBuilder { id: None, workspace_id: None, is_invite_only: None, folder_id: None }
    }
}

impl MoveProjectIntoWorkspaceBuilder {
    /// Sets `id`.
    pub fn id(self, value: &str) -> (b: MoveProjectIntoWorkspaceBuilder)
        ensures
            b == (MoveProjectIntoWorkspaceBuilder { id: b.id, ..self }),
            b.id matches Some(v) && v.0@ == value@,
    {
        MoveProjectIntoWorkspaceBuilder { id: Some(Id(String::from_str(value))), ..self }
    }

    /// Sets `workspace_id`.
    pub fn workspace_id(self, value: &str) -> (b: MoveProjectIntoWorkspaceBuilder)
        ensures
            b == (MoveProjectIntoWorkspaceBuilder { workspace_id: b.workspace_id, ..self }),
            b.workspace_id matches Some(v) && v.0@ == value@,
    {
        MoveProjectIntoWorkspaceBuilder { workspace_id: Some(Id(String::from_str(value))), ..self }
    }

    /// Sets `is_invite_only`.
    pub fn is_invite_only(self, value: bool) -> (b: MoveProjectIntoWorkspaceBuilder)
        ensures
            b == (MoveProjectIntoWorkspaceBuilder { is_invite_only: b.is_invite_only, ..self }),
            b.is_invite_only matches Some(v) && v == value,
    {
        MoveProjectIntoWorkspaceBuilder { is_invite_only: Some(value), ..self }
    }

    /// Sets or clears `is_invite_only`.
    pub fn maybe_is_invite_only(self, value: Option<bool>) -> (b: MoveProjectIntoWorkspaceBuilder)
        ensures
            b == (MoveProjectIntoWorkspaceBuilder { is_invite_only: b.is_invite_only, ..self }),
            b.is_invite_only == value,
    {
        MoveProjectIntoWorkspaceBuilder { is_invite_only: value, ..self }
    }

    /// Sets `folder_id`.
    pub fn folder_id(self, value: &str) -> (b: MoveProjectIntoWorkspaceBuilder)
        ensures
            b == (MoveProjectIntoWorkspaceBuilder { folder_id: b.folder_id, ..self }),
            b.folder_id matches Some(v) && v.0@ == value@,
    {
        MoveProjectIntoWorkspaceBuilder { folder_id: Some(Id(String::from_str(value))), ..self }
    }

    /// Sets or clears `folder_id`.
    pub fn maybe_folder_id(self, value: Option<&str>) -> (b: MoveProjectIntoWorkspaceBuilder)
        ensures
            b == (MoveProjectIntoWorkspaceBuilder { folder_id: b.folder_id, ..self }),
            match value {
                Some(s) => b.folder_id matches Some(v) && v.0@ == s@,
                None => b.folder_id is None,
            },
    {
        let v = match value {
            Some(s) => Some(Id(String::from_str(s))),
            None => None,
        };
        MoveProjectIntoWorkspaceBuilder { folder_id: v, ..self }
    }

    /// The command, once every required field is set.
    pub fn build(self) -> (r: MoveProjectIntoWorkspace)
        requires
            self.id is Some,
            self.workspace_id is Some,
        ensures
            r@.id == self.id.unwrap(),
            r@.workspace_id == self.workspace_id.unwrap(),
            r@.is_invite_only == self.is_invite_only,
            r@.folder_id == self.folder_id,
            r@.use_lro,
    {
        MoveProjectIntoWorkspace {
            id: self.id.unwrap(),
            workspace_id: self.workspace_id.unwrap(),
            is_invite_only: self.is_invite_only,
            folder_id: self.folder_id,
            use_lro: true,
        }
    }
}

/// Moves a project inside a workspace back into a user's personal space.
///
/// Only the creator of the project can do this, and only while
/// still an admin of the workspace.
#[derive(Debug, Clone, PartialEq, Eq)]
pub struct MoveProjectOutOfWorkspace {
    /// The ID of the project being moved out (sent as `project_id`).
    pub id: Id,
    /// Soon to be deprecated and always `true`.
    use_lro: bool,
}

impl CommandArgs for MoveProjectOutOfWorkspace {
    const TYPE: &'static str = "project_move_to_personal";
    const CREATES_RESOURCE: bool = false;
}

/// The contents of a [`MoveProjectOutOfWorkspace`].
pub struct MoveProjectOutOfWorkspaceView {
    pub id: Id,
    pub use_lro: bool,
}

impl View for MoveProjectOutOfWorkspace {
    type V = MoveProjectOutOfWorkspaceView;

    closed spec fn view(&self) -> MoveProjectOutOfWorkspaceView {
        MoveProjectOutOfWorkspaceView { id: self.id, use_lro: self.use_lro }
    }
}

impl MoveProjectOutOfWorkspace {
    /// Always `true`: the API wants this flag set.
    pub fn use_lro(&self) -> (b: bool)
        ensures
            b == self@.use_lro,
    {
        self.use_lro
    }
}

/// Builds a [`MoveProjectOutOfWorkspace`]; start with [`MoveProjectOutOfWorkspace::builder`].
pub struct MoveProjectOutOfWorkspaceBuilder {
    pub id: Option<Id>,
}

impl MoveProjectOutOfWorkspace {
    /// A builder with nothing set yet.
    pub fn builder() -> (b: MoveProjectOutOfWorkspaceBuilder)
        ensures
            b.id is None,
    {
        MoveProjectOutOfWorkspaceBuilder { id: None }
    }
}

impl MoveProjectOutOfWorkspaceBuilder {
    /// Sets `id`.
    pub fn id(self, value: &str) -> (b: MoveProjectOutOfWorkspaceBuilder)
        ensures
            b == (MoveProjectOutOfWorkspaceBuilder { id: b.id, ..self }),
            b.id matches Some(v) && v.0@ == value@,
    {
        MoveProjectOutOfWorkspaceBuilder { id: Some(Id(String::from_str(value))), ..self }
    }

    /// The command, once every required field is set.
    pub fn build(self) -> (r: MoveProjectOutOfWorkspace)
        requires
            self.id is Some,
        ensures
            r@.id == self.id.unwrap(),
            r@.use_lro,
    {
        MoveProjectOutOfWorkspace {
            id: self.id.unwrap(),
            use_lro: true,
        }
    }
}

/// Delete an existing project and all its descendants.
///
/// Workspace projects can only be deleted by users with `Role::Admin`, and
/// must be archived first.
#[derive(Debug, Clone, PartialEq, Eq)]
pub struct DeleteProject {
    /// The ID of the project to delete.
    pub id: Id,
}

impl CommandArgs for DeleteProject {
    const TYPE: &'static str = "project_delete";
    const CREATES_RESOURCE: bool = false;
}

/// Builds a [`DeleteProject`]; start with [`DeleteProject::builder`].
pub struct DeleteProjectBuilder {
    pub id: Option<Id>,
}

impl DeleteProject {
    /// A builder with nothing set yet.
    pub fn builder() -> (b: DeleteProjectBuilder)
        ensures
            b.id is None,
    {
        DeleteProjectBuilder { id: None }
    }
}

impl DeleteProjectBuilder {
    /// Sets `id`.
    pub fn id(self, value: &str) -> (b: DeleteProjectBuilder)
        ensures
            b == (DeleteProjectBuilder { id: b.id, ..self }),
            b.id matches Some(v) && v.0@ == value@,
    {
        DeleteProjectBuilder { id: Some(Id(String::from_str(value))), ..self }
    }

    /// The command, once every required field is set.
    pub fn build(self) -> (r: DeleteProject)
        requires
            self.id is Some,
        ensures
            r.id == self.id.unwrap(),
    {
        DeleteProject {
            id: self.id.unwrap(),
        }
    }
}

/// Archive a project and its descendants.
#[derive(Debug, Clone, PartialEq, Eq)]
pub struct ArchiveProject {
    /// The ID of the project to archive.
    pub id: Id,
}

impl CommandArgs for ArchiveProject {
    const TYPE: &'static str = "project_archive";
    const CREATES_RESOURCE: bool = false;
}

/// Builds a [`ArchiveProject`]; start with [`ArchiveProject::builder`].
pub struct ArchiveProjectBuilder {
    pub id: Option<Id>,
}

impl ArchiveProject {
    /// A builder with nothing set yet.
    pub fn builder() -> (b: ArchiveProjectBuilder)
        ensures
            b.id is None,
    {
        ArchiveProjectBuilder { id: None }
    }
}

impl ArchiveProjectBuilder {
    /// Sets `id`.
    pub fn id(self, value: &str) -> (b: ArchiveProjectBuilder)
        ensures
            b == (ArchiveProjectBuilder { id: b.id, ..self }),
            b.id matches Some(v) && v.0@ == value@,
    {
        ArchiveProjectBuilder { id: Some(Id(String::from_str(value))), ..self }
    }

    /// The command, once every required field is set.
    pub fn build(self) -> (r: ArchiveProject)
        requires
            self.id is Some,
        ensures
            r.id == self.id.unwrap(),
    {
        ArchiveProject {
            id: self.id.unwrap(),
        }
    }
}

/// Unarchive a project and its descendants.
#[derive(Debug, Clone, PartialEq, Eq)]
pub struct UnarchiveProject {
    /// The ID of the project to unarchive.
    pub id: Id,
}

impl CommandArgs for UnarchiveProject {
    const TYPE: &'static str = "project_unarchive";
    const CREATES_RESOURCE: bool = false;
}

/// Builds a [`UnarchiveProject`]; start with [`UnarchiveProject::builder`].
pub struct UnarchiveProjectBuilder {
    pub id: Option<Id>,
}

impl UnarchiveProject {
    /// A builder with nothing set yet.
    pub fn builder() -> (b: UnarchiveProjectBuilder)
        ensures
            b.id is None,
    {
        UnarchiveProjectBuilder { id: None }
    }
}

impl UnarchiveProjectBuilder {
    /// Sets `id`.
    pub fn id(self, value: &str) -> (b: UnarchiveProjectBuilder)
        ensures
            b == (UnarchiveProjectBuilder { id: b.id, ..self }),
            b.id matches Some(v) && v.0@ == value@,
    {
        UnarchiveProjectBuilder { id: Some(Id(String::from_str(value))), ..self }
    }

    /// The command, once every required field is set.
    pub fn build(self) -> (r: UnarchiveProject)
        requires
            self.id is Some,
        ensures
            r.id == self.id.unwrap(),
    {
        UnarchiveProject {
            id: self.id.unwrap(),
        }
    }
}

/// Change the role of a user in a project.
#[derive(Debug, Clone, PartialEq, Eq)]
pub struct ChangeProjectRole {
    /// The ID of the project to change the role for.
    pub id: Id,
    /// ID of the user whose role to change.
    pub user_id: u32,
    /// New role for the user. Only the project creator can be assigned
    /// `Role::Creator`.
    pub role: Role,
}

impl CommandArgs for ChangeProjectRole {
    const TYPE: &'static str = "project_change_role";
    const CREATES_RESOURCE: bool = false;
}

/// Builds a [`ChangeProjectRole`]; start with [`ChangeProjectRole::builder`].
pub struct ChangeProjectRoleBuilder {
    pub id: Option<Id>,
    pub user_id: Option<u32>,
    pub role: Option<Role>,
}

impl ChangeProjectRole {
    /// A builder with nothing set yet.
    pub fn builder() -> (b: ChangeProjectRoleBuilder)
        ensures
            b.id is None,
            b.user_id is None,
            b.role is None,
    {
        ChangeProjectRoleBuilder { id: None, user_id: None, role: None }
    }
}

impl ChangeProjectRoleBuilder {
    /// Sets `id`.
    pub fn id(self, value: &str) -> (b: ChangeProjectRoleBuilder)
        ensures
            b == (ChangeProjectRoleBuilder { id: b.id, ..self }),
            b.id matches Some(v) && v.0@ == value@,
    {
        ChangeProjectRoleBuilder { id: Some(Id(String::from_str(value))), ..self }
    }

    /// Sets `user_id`.
    pub fn user_id(self, value: u32) -> (b: ChangeProjectRoleBuilder)
        ensures
            b == (ChangeProjectRoleBuilder { user_id: b.user_id, ..self }),
            b.user_id matches Some(v) && v == value,
    {
        ChangeProjectRoleBuilder { user_id: Some(value), ..self }
    }

    /// Sets `role`.
    pub fn role(self, value: Role) -> (b: ChangeProjectRoleBuilder)
        ensures
            b == (ChangeProjectRoleBuilder { role: b.role, ..self }),
            b.role matches Some(v) && v == value,
    {
        ChangeProjectRoleBuilder { role: Some(value), ..self }
    }

    /// The command, once every required field is set.
    pub fn build(self) -> (r: ChangeProjectRole)
        requires
            self.id is Some,
            self.user_id is Some,
            self.role is Some,
        ensures
            r.id == self.id.unwrap(),
            r.user_id == self.user_id.unwrap(),
            r.role == self.role.unwrap(),
    {
        ChangeProjectRole {
            id: self.id.unwrap(),
            user_id: self.user_id.unwrap(),
            role: self.role.unwrap(),
        }
    }
}

/// Of the project commands, only adding a project creates a resource.
pub proof fn lemma_project_commands_creating_resources()
    ensures
        AddProject::CREATES_RESOURCE,
        !UpdateProject::CREATES_RESOURCE,
        !MoveProject::CREATES_RESOURCE,
        !MoveProjectIntoWorkspace::CREATES_RESOURCE,
        !MoveProjectOutOfWorkspace::CREATES_RESOURCE,
        !DeleteProject::CREATES_RESOURCE,
        !ArchiveProject::CREATES_RESOURCE,
        !UnarchiveProject::CREATES_RESOURCE,
        !ChangeProjectRole::CREATES_RESOURCE,
{
}

/// The type strings of the project commands.
pub proof fn lemma_project_command_types()
    ensures
        AddProject::TYPE@ == "project_add"@,
        UpdateProject::TYPE@ == "project_update"@,
        MoveProject::TYPE@ == "project_move"@,
        MoveProjectIntoWorkspace::TYPE@ == "project_move_to_workspace"@,
        MoveProjectOutOfWorkspace::TYPE@ == "project_move_to_personal"@,
        DeleteProject::TYPE@ == "project_delete"@,
        ArchiveProject::TYPE@ == "project_archive"@,
        UnarchiveProject::TYPE@ == "project_unarchive"@,
        ChangeProjectRole::TYPE@ == "project_change_role"@,
{
}

} // verus!
