use ralph::errors::RalphError;
use ralph::json::read_json;
use ralph::models::{TaskComplexity, TaskStatus};
use ralph::raw::RawValue;
use ralph::tasks::{json_to_task_list, task_from_entry, task_list_from_record};

fn entry(members: Vec<(&str, RawValue)>) -> RawValue {
    RawValue::Object(members.into_iter().map(|(k, v)| (k.to_string(), v)).collect())
}

#[test]
fn entry_with_only_an_id_gets_every_default() {
    let task = task_from_entry(&entry(vec![("id", RawValue::text("T-001"))]));
    assert_eq!(task.id, "T-001");
    assert_eq!(task.title, "");
    assert_eq!(task.description, "");
    assert_eq!(task.priority, 3);
    assert_eq!(task.status, TaskStatus::Pending);
    assert!(task.dependencies.is_empty());
    assert_eq!(task.user_story_id, None);
    assert_eq!(task.estimated_complexity, TaskComplexity::Medium);
    assert!(task.files_created.is_empty());
    assert!(task.files_modified.is_empty());
    assert_eq!(task.commit_hash, None);
    assert_eq!(task.attempts, 0);
    assert_eq!(task.notes, "");
}

#[test]
fn entry_without_an_id_gets_the_placeholder() {
    assert_eq!(task_from_entry(&entry(vec![])).id, "TASK-000");
    assert_eq!(task_from_entry(&RawValue::Null).id, "TASK-000");
    assert_eq!(task_from_entry(&RawValue::text("T-1")).id, "TASK-000");
    assert_eq!(task_from_entry(&entry(vec![("id", RawValue::Unsigned(1))])).id, "TASK-000");
}

#[test]
fn status_in_the_entry_is_not_read() {
    for status in ["completed", "in_progress", "failed", "blocked", "pending"] {
        let task = task_from_entry(&entry(vec![
            ("id", RawValue::text("T-1")),
            ("status", RawValue::text(status)),
            ("attempts", RawValue::Unsigned(4)),
            ("commit_hash", RawValue::text("abc")),
        ]));
        assert_eq!(task.status, TaskStatus::Pending);
        assert_eq!(task.attempts, 0);
        assert_eq!(task.commit_hash, None);
    }
}

#[test]
fn complexity_is_read_by_exact_name() {
    let read = |value: RawValue| task_from_entry(&entry(vec![("estimated_complexity", value)])).estimated_complexity;
    assert_eq!(read(RawValue::text("low")), TaskComplexity::Low);
    assert_eq!(read(RawValue::text("high")), TaskComplexity::High);
    assert_eq!(read(RawValue::text("medium")), TaskComplexity::Medium);
    assert_eq!(read(RawValue::text("Low")), TaskComplexity::Medium);
    assert_eq!(read(RawValue::text("HIGH")), TaskComplexity::Medium);
    assert_eq!(read(RawValue::text("")), TaskComplexity::Medium);
    assert_eq!(read(RawValue::Unsigned(1)), TaskComplexity::Medium);
    assert_eq!(read(RawValue::Null), TaskComplexity::Medium);
}

#[test]
fn priority_is_read_from_whole_numbers() {
    let read = |value: RawValue| task_from_entry(&entry(vec![("priority", value)])).priority;
    assert_eq!(read(RawValue::Unsigned(1)), 1);
    assert_eq!(read(RawValue::Signed(5)), 5);
    assert_eq!(read(RawValue::text("1")), 3);
    assert_eq!(read(RawValue::Decimal("2.0".to_string())), 3);
    assert_eq!(read(RawValue::Null), 3);
    assert_eq!(read(RawValue::Unsigned(u64::MAX)), 3);
    assert_eq!(read(RawValue::Signed(-1)), u32::MAX);
    assert_eq!(read(RawValue::Unsigned(4294967297)), 1);
}

#[test]
fn lists_keep_their_strings_and_criteria_are_joined() {
    let json = read_json(
        r#"{"id": "T-002", "title": "Add CLI", "description": "Parse arguments", "priority": 2,
            "estimated_complexity": "high", "dependencies": ["T-001", 5, "T-000"],
            "user_story_id": "US-001", "files_to_create": ["src/cli.rs"],
            "files_to_modify": ["src/main.rs", null],
            "acceptance_criteria": ["WHEN x, THE system SHALL y", 3, "second", ""]}"#,
    )
    .unwrap();
    let task = task_from_entry(&json);
    assert_eq!(task.id, "T-002");
    assert_eq!(task.title, "Add CLI");
    assert_eq!(task.description, "Parse arguments");
    assert_eq!(task.priority, 2);
    assert_eq!(task.estimated_complexity, TaskComplexity::High);
    assert_eq!(task.dependencies, vec!["T-001".to_string(), "T-000".to_string()]);
    assert_eq!(task.user_story_id, Some("US-001".to_string()));
    assert_eq!(task.files_created, vec!["src/cli.rs".to_string()]);
    assert_eq!(task.files_modified, vec!["src/main.rs".to_string()]);
    assert_eq!(task.notes, "WHEN x, THE system SHALL y\nsecond\n");
}

#[test]
fn task_list_keeps_the_order_of_the_entries() {
    let json = read_json(
        r#"{"design": {"language": "python"},
            "tasks": [{"id": "B"}, {"id": "A"}, {"id": "B"}, 7, {"title": "no id"}]}"#,
    )
    .unwrap();
    let list = task_list_from_record(&json, "demo", "now".to_string()).unwrap();
    assert_eq!(list.project, "demo");
    assert_eq!(list.language, "python");
    assert!(list.phases.is_empty());
    assert_eq!(list.version, "1.0");
    assert_eq!(list.created_at, Some("now".to_string()));
    assert_eq!(list.updated_at, None);
    let ids: Vec<&str> = list.tasks.iter().map(|t| t.id.as_str()).collect();
    assert_eq!(ids, vec!["B", "A", "B", "TASK-000", "TASK-000"]);
    assert_eq!(list.tasks[4].title, "no id");
    assert!(list.tasks.iter().all(|t| t.status == TaskStatus::Pending));
}

#[test]
fn task_list_defaults() {
    let list = task_list_from_record(&RawValue::Object(vec![]), "demo", "now".to_string()).unwrap();
    assert_eq!(list.language, "rust");
    assert!(list.tasks.is_empty());
    let list = task_list_from_record(&RawValue::Null, "demo", "now".to_string()).unwrap();
    assert!(list.tasks.is_empty());
    let json = read_json(r#"{"tasks": {"id": "T-1"}, "design": "none"}"#).unwrap();
    let list = task_list_from_record(&json, "demo", "now".to_string()).unwrap();
    assert!(list.tasks.is_empty());
    assert_eq!(list.language, "rust");
}

#[test]
fn task_record_of_wrong_shape_is_refused() {
    for value in [RawValue::Bool(false), RawValue::Unsigned(0), RawValue::text("tasks"), RawValue::Array(vec![])] {
        assert!(matches!(
            task_list_from_record(&value, "demo", "now".to_string()),
            Err(RalphError::InputShape(_))
        ));
        assert!(matches!(json_to_task_list(&value, "demo"), Err(RalphError::InputShape(_))));
    }
}

#[test]
fn task_list_is_stamped_with_a_time() {
    let list = json_to_task_list(&RawValue::Object(vec![]), "demo").unwrap();
    assert!(list.created_at.unwrap().contains('T'));
    assert_eq!(list.updated_at, None);
}

#[test]
fn task_refusal_says_what_is_wrong() {
    assert_eq!(
        task_list_from_record(&RawValue::Array(vec![]), "demo", "now".to_string()),
        Err(RalphError::InputShape("the task record is not an object".to_string()))
    );
}
