use todoist_sdk::command::project::{
    AddProject, ArchiveProject, ChangeProjectRole, DeleteProject, MoveProject,
    MoveProjectIntoWorkspace, MoveProjectOutOfWorkspace, UnarchiveProject, UpdateProject,
};
use todoist_sdk::command::task::{
    AddTask, CloseTask, CompleteRecurringTask, CompleteTask, DeleteTask, MoveTask, UncompleteTask,
    UpdateTask, UpdateTaskDayOrders,
};
use todoist_sdk::command::{Command, CommandArgs};
use todoist_sdk::types::project::Role;
use todoist_sdk::types::Id;

#[test]
fn creating_command_attaches_a_temp_id() {
    let cmd = Command::new(AddTask::default());
    assert!(cmd.temp_id().is_some());
}

#[test]
fn non_creating_command_has_no_temp_id() {
    let cmd = Command::new(DeleteTask::default());
    assert!(cmd.temp_id().is_none());
}

#[test]
fn project_command_types() {
    assert_eq!(AddProject::TYPE, "project_add");
    assert_eq!(UpdateProject::TYPE, "project_update");
    assert_eq!(MoveProject::TYPE, "project_move");
    assert_eq!(MoveProjectIntoWorkspace::TYPE, "project_move_to_workspace");
    assert_eq!(MoveProjectOutOfWorkspace::TYPE, "project_move_to_personal");
    assert_eq!(DeleteProject::TYPE, "project_delete");
    assert_eq!(ArchiveProject::TYPE, "project_archive");
    assert_eq!(UnarchiveProject::TYPE, "project_unarchive");
    assert_eq!(ChangeProjectRole::TYPE, "project_change_role");
}

#[test]
fn project_creates_resource() {
    const {
        assert!(AddProject::CREATES_RESOURCE);
        assert!(!UpdateProject::CREATES_RESOURCE);
        assert!(!MoveProject::CREATES_RESOURCE);
        assert!(!MoveProjectIntoWorkspace::CREATES_RESOURCE);
        assert!(!MoveProjectOutOfWorkspace::CREATES_RESOURCE);
        assert!(!DeleteProject::CREATES_RESOURCE);
        assert!(!ArchiveProject::CREATES_RESOURCE);
        assert!(!UnarchiveProject::CREATES_RESOURCE);
        assert!(!ChangeProjectRole::CREATES_RESOURCE);
    }
}

#[test]
fn use_lro_is_true() {
    // use_lro should always be true
    assert!(
        MoveProjectIntoWorkspace::builder()
            .id("123")
            .workspace_id("123")
            .build()
            .use_lro()
    );
    assert!(MoveProjectOutOfWorkspace::builder().id("123").build().use_lro());
}

#[test]
fn task_command_types() {
    assert_eq!(AddTask::TYPE, "item_add");
    assert_eq!(UpdateTask::TYPE, "item_update");
    assert_eq!(MoveTask::TYPE, "item_move");
    assert_eq!(DeleteTask::TYPE, "item_delete");
    assert_eq!(CompleteTask::TYPE, "item_complete");
    assert_eq!(UncompleteTask::TYPE, "item_uncomplete");
    assert_eq!(CompleteRecurringTask::TYPE, "item_update_date_complete");
    assert_eq!(CloseTask::TYPE, "item_close");
    assert_eq!(UpdateTaskDayOrders::TYPE, "item_update_day_orders");
}

#[test]
fn task_creates_resource() {
    const {
        assert!(AddTask::CREATES_RESOURCE);
        assert!(!UpdateTask::CREATES_RESOURCE);
        assert!(!MoveTask::CREATES_RESOURCE);
        assert!(!DeleteTask::CREATES_RESOURCE);
        assert!(!CompleteTask::CREATES_RESOURCE);
        assert!(!UncompleteTask::CREATES_RESOURCE);
        assert!(!CompleteRecurringTask::CREATES_RESOURCE);
        assert!(!CloseTask::CREATES_RESOURCE);
        assert!(!UpdateTaskDayOrders::CREATES_RESOURCE);
    }
}

#[test]
fn command_carries_type_tag_and_args() {
    let cmd = Command::new(CloseTask { id: Id(String::from("42")) });
    assert_eq!(cmd.kind(), "item_close");
    assert_eq!(cmd.args().id, Id(String::from("42")));
}

#[test]
fn every_command_gets_its_own_uuid() {
    let a = Command::new(CloseTask::default());
    let b = Command::new(CloseTask::default());
    assert_ne!(a.command_id(), b.command_id());
    let c = Command::new(AddTask::default());
    assert_ne!(Some(c.command_id()), c.temp_id());
}

#[test]
fn day_orders_command_holds_multiple_mappings() {
    let mut ids_to_orders = std::collections::HashMap::new();
    ids_to_orders.insert(Id(String::from("111")), 1);
    ids_to_orders.insert(Id(String::from("222")), 2);
    let args = UpdateTaskDayOrders { ids_to_orders };
    assert_eq!(args.ids_to_orders.len(), 2);
    let cmd = Command::new(args);
    assert_eq!(cmd.kind(), "item_update_day_orders");
    assert_eq!(cmd.args().ids_to_orders.get(&Id(String::from("222"))), Some(&2));
}

#[test]
fn add_project_builder_defaults_insights_to_true() {
    let p = AddProject::builder().name("Shopping").build();
    assert_eq!(p.name, "Shopping");
    assert!(p.is_project_insights_enabled);
    assert_eq!(p.parent_id, None);
    let q = AddProject::builder()
        .name("Work")
        .parent_id("7")
        .is_project_insights_enabled(false)
        .build();
    assert_eq!(q.parent_id, Some(Id(String::from("7"))));
    assert!(!q.is_project_insights_enabled);
}

#[test]
fn builders_keep_what_was_set() {
    let m = MoveProject::builder().id("1").maybe_parent_id(None).build();
    assert_eq!(m.id, "1");
    assert_eq!(m.parent_id, None);
    let r = ChangeProjectRole::builder().id("9").user_id(5).role(Role::Admin).build();
    assert_eq!(r.id, Id(String::from("9")));
    assert_eq!(r.user_id, 5);
    assert_eq!(r.role, Role::Admin);
    let w = MoveProjectIntoWorkspace::builder()
        .id("1")
        .workspace_id("2")
        .folder_id("3")
        .build();
    assert_eq!(w.id, Id(String::from("1")));
    assert_eq!(w.workspace_id, Id(String::from("2")));
    assert_eq!(w.folder_id, Some(Id(String::from("3"))));
    assert_eq!(w.is_invite_only, None);
}

const ADD_TASK_DEFAULT_ARGS: &str = r#"{"content":"","description":null,"project_id":null,"due":null,"deadline":null,"priority":null,"parent_id":null,"child_order":null,"order_key":null,"section_id":null,"day_order":null,"is_collapsed":null,"labels":null,"assigned_by_uid":null,"responsible_uid":null,"auto_reminder":null,"auto_parse_labels":null,"duration":null}"#;
const ID_ONLY_DEFAULT_ARGS: &str = r#"{"id":""}"#;

fn to_value<T>(cmd: &Command<T>, args: &str) -> serde_json::Value {
    serde_json::from_str(&cmd.to_json(args)).expect("command JSON should parse")
}

#[test]
fn temp_id_is_omitted_from_json_when_absent() {
    let cmd = Command::new(DeleteTask::default());
    let value = to_value(&cmd, ID_ONLY_DEFAULT_ARGS);
    assert!(
        value.get("temp_id").is_none(),
        "temp_id should be skipped, not null"
    );
}

#[test]
fn temp_id_is_present_in_json_when_set() {
    let cmd = Command::new(AddTask::default());
    let value = to_value(&cmd, ADD_TASK_DEFAULT_ARGS);
    assert!(value.get("temp_id").is_some());
}

#[test]
fn serialized_command_has_correct_type_tag() {
    let cmd = Command::new(CloseTask::default());
    let value = to_value(&cmd, ID_ONLY_DEFAULT_ARGS);
    assert_eq!(value["type"], serde_json::Value::from("item_close"));
}

#[test]
fn serialized_command_nests_args_under_args_key() {
    let cmd = Command::new(DeleteTask::default());
    let value = to_value(&cmd, ID_ONLY_DEFAULT_ARGS);
    assert!(value.get("args").is_some());
    assert!(value["args"].get("id").is_some());
}

#[test]
fn every_serialized_command_includes_a_valid_uuid() {
    let cmd = Command::new(CloseTask::default());
    let value = to_value(&cmd, ID_ONLY_DEFAULT_ARGS);
    let uuid_str = value["uuid"]
        .as_str()
        .expect("uuid should serialize as a string");
    assert!(uuid::Uuid::parse_str(uuid_str).is_ok());
}

#[test]
fn command_json_keeps_field_order_and_ids() {
    let cmd = Command::new(AddTask::default());
    let text = cmd.to_json("{}");
    let temp = cmd.temp_id().unwrap().to_string();
    let id = cmd.command_id().to_string();
    assert_eq!(
        text,
        format!(r#"{{"type":"item_add","temp_id":"{temp}","args":{{}},"uuid":"{id}"}}"#)
    );
}

#[test]
fn command_ids_are_version_4() {
    let cmd = Command::new(AddTask::default());
    for u in [cmd.command_id(), cmd.temp_id().unwrap()] {
        let text = u.to_string();
        assert_eq!(&text[14..15], "4");
        assert!(["8", "9", "a", "b"].contains(&&text[19..20]));
    }
}
