//! Commands that add, change, move, complete and delete tasks.
use std::collections::HashMap;
use vstd::prelude::*;

use crate::command::CommandArgs;
use crate::types::task::{Deadline, DueDate, TaskDuration};
use crate::types::time::Timestamp;
use crate::types::{Id, Uid};

verus! {

/// Add a task.
#[derive(Debug, Default, Clone, PartialEq, Eq)]
pub struct AddTask {
    /// The text of the task. This value may contain markdown-formatted text
    /// and hyperlinks.
    pub content: String,
    /// A description for the task. This value may contain markdown-formatted
    /// text and hyperlinks.
    pub description: Option<String>,
    /// The ID of the project to add the task to (a number or a temp id). By
    /// default the task is added to the user's `Inbox` project.
    pub project_id: Option<Id>,
    /// The due date of the task.
    pub due: Option<DueDate>,
    /// The deadline of the task.
    pub deadline: Option<Deadline>,
    /// The priority of the task (a number between `1` and `4`, `4` for very
    /// urgent and `1` for natural). Very urgent is the priority `1` on
    /// clients, so `p1` is `4` in the API.
    pub priority: Option<u8>,
    /// The ID of the parent task. Set to `None` for root tasks.
    pub parent_id: Option<String>,
    /// The position of the task among the tasks with the same parent.
    pub child_order: Option<i32>,
    /// Fractional-indexing order key for the new task. When omitted, the
    /// backend places the task at the bottom of its siblings (same project,
    /// section and parent task); a key already in use is adjusted to just
    /// after that position and the corrected value is returned via sync.
    pub order_key: Option<String>,
    /// The ID of the section. Set to `None` for tasks not in a section.
    pub section_id: Option<Id>,
    /// The order of the task inside the Today or Next 7 days view. Smaller
    /// values place the task nearer the top.
    pub day_order: Option<i32>,
    /// Whether the task's sub-tasks are collapsed.
    pub is_collapsed: Option<bool>,
    /// The task's labels (names of personal or shared labels).
    pub labels: Option<Vec<String>>,
    /// The ID of the user who assigns the task (shared projects only).
    /// Accepts `0` or any collaborator's ID; unset or invalid means your UID.
    pub assigned_by_uid: Option<Uid>,
    /// The ID of the user responsible for the task (shared projects only).
    /// Accepts any collaborator's ID, or `None` or an empty string to unset.
    pub responsible_uid: Option<Uid>,
    /// Whether the user's default reminder is added to the new task if it
    /// has a due date with a time.
    pub auto_reminder: Option<bool>,
    /// Whether the labels should be parsed from the task content.
    pub auto_parse_labels: Option<bool>,
    /// The task's duration.
    pub duration: Option<TaskDuration>,
}

impl CommandArgs for AddTask {
    const TYPE: &'static str = "item_add";
    const CREATES_RESOURCE: bool = true;
}

/// Updates task attributes.
///
/// Updating the parent, moving, completing or uncompleting tasks is not
/// supported by `UpdateTask`; more specific commands do that.
#[derive(Debug, Default, Clone, PartialEq, Eq)]
pub struct UpdateTask {
    /// The ID of the task.
    pub id: Id,
    /// The text of the task.
    pub content: Option<String>,
    /// A description for the task.
    pub description: Option<String>,
    /// The due date of the task.
    pub due: Option<DueDate>,
    /// The deadline of the task.
    pub deadline: Option<Deadline>,
    /// The priority of the task (`1` to `4`, `4` for very urgent).
    pub priority: Option<u8>,
    /// Whether the task's sub-tasks are collapsed.
    pub is_collapsed: Option<bool>,
    /// The task's labels.
    pub labels: Option<Vec<String>>,
    /// The ID of the user who assigns the task (shared projects only).
    pub assigned_by_uid: Option<Uid>,
    /// The ID of the user responsible for the task (shared projects only).
    pub responsible_uid: Option<Uid>,
    /// The order of the task inside the Today or Next 7 days view.
    pub day_order: Option<i32>,
    /// The task's duration.
    pub duration: Option<TaskDuration>,
    /// Fractional-indexing order key for the task.
    pub order_key: Option<String>,
}

impl CommandArgs for UpdateTask {
    const TYPE: &'static str = "item_update";
    const CREATES_RESOURCE: bool = false;
}

/// Move task to a different location.
///
/// Only one of `parent_id`, `section_id` or `project_id` must be set.
#[derive(Debug, Default, Clone, PartialEq, Eq)]
pub struct MoveTask {
    /// The ID of the task.
    pub id: Id,
    /// ID of the destination parent task. The task becomes the last child
    /// task of the parent task.
    pub parent_id: Option<Id>,
    /// ID of the destination section. The task becomes the last root task of
    /// the section.
    pub section_id: Option<Id>,
    /// ID of the destination project. The task becomes the last root task of
    /// the project.
    pub project_id: Option<Id>,
}

impl CommandArgs for MoveTask {
    const TYPE: &'static str = "item_move";
    const CREATES_RESOURCE: bool = false;
}

/// Delete a task and all its sub-tasks.
#[derive(Debug, Default, Clone, PartialEq, Eq)]
pub struct DeleteTask {
    /// ID of the task to delete.
    pub id: Id,
}

impl CommandArgs for DeleteTask {
    const TYPE: &'static str = "item_delete";
    const CREATES_RESOURCE: bool = false;
}

/// Completes a task and its sub-tasks and moves them to the archive. See
/// also `CloseTask` for a simplified version of the command.
#[derive(Debug, Default, Clone, PartialEq, Eq)]
pub struct CompleteTask {
    /// Task ID to complete.
    pub id: Id,
    /// Date of completion of the task. If not set, the server uses the
    /// current time.
    pub date_completed: Option<Timestamp>,
    /// If `true`, skips incrementing completion stats. Used when restoring
    /// task state after undoing a completion.
    pub from_undo: Option<bool>,
}

impl CommandArgs for CompleteTask {
    const TYPE: &'static str = "item_complete";
    const CREATES_RESOURCE: bool = false;
}

/// (Un)completes and restores a completed task.
///
/// Any ancestor items or sections are reinstated too, at the end of the list
/// within their parent, with the checked value reset.
#[derive(Debug, Default, Clone, PartialEq, Eq)]
pub struct UncompleteTask {
    /// Task ID to uncomplete.
    pub id: Id,
}

impl CommandArgs for UncompleteTask {
    const TYPE: &'static str = "item_uncomplete";
    const CREATES_RESOURCE: bool = false;
}

/// Complete a recurring task.
///
/// This marks a recurring completion, which `UpdateTask` does not. See also
/// `CloseTask` for a simplified version of the command.
#[derive(Debug, Default, Clone, PartialEq, Eq)]
pub struct CompleteRecurringTask {
    /// Task ID to complete.
    pub id: Id,
    /// The due date of the task.
    pub due: Option<DueDate>,
    /// `true` for completion, `false` for uncompletion (e.g. via undo). If
    /// omitted, the server takes `true`.
    pub is_forward: Option<bool>,
    /// Set to `true` to reset subtasks when a recurring task is completed.
    /// By default subtasks keep their status when the parent task recurs.
    pub reset_subtasks: Option<bool>,
}

impl CommandArgs for CompleteRecurringTask {
    const TYPE: &'static str = "item_update_date_complete";
    const CREATES_RESOURCE: bool = false;
}

/// A simplified version of `CompleteTask` / `CompleteRecurringTask`: regular
/// tasks are completed and moved to the archive, recurring tasks are
/// scheduled to their next occurrence, as the official clients do.
#[derive(Debug, Default, Clone, PartialEq, Eq)]
pub struct CloseTask {
    /// The ID of the task to close.
    pub id: Id,
}

impl CommandArgs for CloseTask {
    const TYPE: &'static str = "item_close";
    const CREATES_RESOURCE: bool = false;
}

/// Update the day orders of multiple tasks at once.
///
/// Unlike `UpdateTask`, this is meant to be used for multiple tasks, rather
/// than just one.
#[derive(Debug, Default, Clone, PartialEq, Eq)]
pub struct UpdateTaskDayOrders {
    /// A mapping where each key is a task ID and each value is a `day_order`.
    pub ids_to_orders: HashMap<Id, i32>,
}

impl CommandArgs for UpdateTaskDayOrders {
    const TYPE: &'static str = "item_update_day_orders";
    const CREATES_RESOURCE: bool = false;
}

/// Of the task commands, only adding a task creates a resource.
pub proof fn lemma_task_commands_creating_resources()
    ensures
        AddTask::CREATES_RESOURCE,
        !UpdateTask::CREATES_RESOURCE,
        !MoveTask::CREATES_RESOURCE,
        !DeleteTask::CREATES_RESOURCE,
        !CompleteTask::CREATES_RESOURCE,
        !UncompleteTask::CREATES_RESOURCE,
        !CompleteRecurringTask::CREATES_RESOURCE,
        !CloseTask::CREATES_RESOURCE,
        !UpdateTaskDayOrders::CREATES_RESOURCE,
{
}

/// The type strings of the task commands.
pub proof fn lemma_task_command_types()
    ensures
        AddTask::TYPE@ == "item_add"@,
        UpdateTask::TYPE@ == "item_update"@,
        MoveTask::TYPE@ == "item_move"@,
        DeleteTask::TYPE@ == "item_delete"@,
        CompleteTask::TYPE@ == "item_complete"@,
        UncompleteTask::TYPE@ == "item_uncomplete"@,
        CompleteRecurringTask::TYPE@ == "item_update_date_complete"@,
        CloseTask::TYPE@ == "item_close"@,
        UpdateTaskDayOrders::TYPE@ == "item_update_day_orders"@,
{
}

} // verus!
