use ralph::errors::RalphError;
use ralph::json::read_json;
use ralph::models::{Task, TaskComplexity, TaskList, TaskStatus};
use ralph::raw::RawValue;
use ralph::snapshot::{complexity_from_text, complexity_text, status_from_text, status_text};

fn sample() -> TaskList {
    TaskList {
        project: "demo".to_string(),
        language: "rust".to_string(),
        phases: vec!["setup".to_string(), "polish".to_string()],
        tasks: vec![
            Task {
                id: "T-002".to_string(),
                title: "Second \"quoted\"".to_string(),
                description: "line one\nline two".to_string(),
                priority: 1,
                status: TaskStatus::InProgress,
                dependencies: vec!["T-001".to_string()],
                user_story_id: Some("US-1".to_string()),
                estimated_complexity: TaskComplexity::High,
                files_created: vec!["src/a.rs".to_string(), "src/b.rs".to_string()],
                files_modified: vec![],
                commit_hash: Some("abc1234".to_string()),
                attempts: 3,
                notes: "WHEN x\nTHEN y".to_string(),
            },
            Task {
                id: "T-001".to_string(),
                title: String::new(),
                description: String::new(),
                priority: u32::MAX,
                status: TaskStatus::Blocked,
                dependencies: vec![],
                user_story_id: None,
                estimated_complexity: TaskComplexity::Low,
                files_created: vec![],
                files_modified: vec!["Cargo.toml".to_string()],
                commit_hash: None,
                attempts: 0,
                notes: String::new(),
            },
        ],
        version: "1.0".to_string(),
        created_at: Some("2024-01-01T00:00:00+00:00".to_string()),
        updated_at: None,
    }
}

#[test]
fn snapshot_is_read_back_unchanged() {
    let list = sample();
    let back = TaskList::from_snapshot(&list.to_snapshot()).unwrap();
    assert_eq!(back, list);
}

#[test]
fn json_text_is_read_back_unchanged() {
    let list = sample();
    let text = list.to_json().unwrap();
    let back = TaskList::from_json(&text).unwrap();
    assert_eq!(back.tasks.len(), 2);
    assert_eq!(back.tasks[0].id, "T-002");
    assert_eq!(back.tasks[1].id, "T-001");
    assert_eq!(back, list);
}

#[test]
fn updated_list_keeps_position_and_identity() {
    let mut list = TaskList::from_json(&sample().to_json().unwrap()).unwrap();
    list.tasks[1].status = TaskStatus::Completed;
    list.tasks[1].attempts += 1;
    list.tasks[1].commit_hash = Some("def5678".to_string());
    list.updated_at = Some("later".to_string());
    let again = TaskList::from_json(&list.to_json().unwrap()).unwrap();
    assert_eq!(again, list);
    assert_eq!(again.tasks[0], sample().tasks[0]);
    assert_eq!(again.tasks[1].status, TaskStatus::Completed);
    assert_eq!(again.tasks[1].attempts, 1);
}

#[test]
fn json_text_names_every_field() {
    let text = sample().to_json().unwrap();
    for name in [
        "project", "language", "phases", "tasks", "version", "created_at", "updated_at", "id", "title",
        "description", "priority", "status", "dependencies", "user_story_id", "estimated_complexity",
        "files_created", "files_modified", "commit_hash", "attempts", "notes",
    ] {
        assert!(text.contains(&format!("\"{}\":", name)));
    }
    assert!(text.contains("\"status\": \"in_progress\""));
    assert!(text.contains("\"estimated_complexity\": \"high\""));
    assert!(text.contains("\"priority\": 4294967295"));
    assert!(text.contains("\"updated_at\": null"));
}

#[test]
fn empty_list_round_trips() {
    let list = TaskList {
        project: String::new(),
        language: String::new(),
        phases: vec![],
        tasks: vec![],
        version: String::new(),
        created_at: None,
        updated_at: None,
    };
    assert_eq!(TaskList::from_json(&list.to_json().unwrap()).unwrap(), list);
}

#[test]
fn text_that_is_no_json_is_a_parse_error() {
    assert!(matches!(TaskList::from_json("{ not json"), Err(RalphError::Parse(_))));
    assert!(matches!(TaskList::from_json(""), Err(RalphError::Parse(_))));
}

#[test]
fn value_that_is_no_snapshot_is_a_parse_error() {
    for text in [
        "null",
        "[]",
        "{}",
        r#"{"project": "p", "language": "l", "phases": [], "tasks": [], "version": 1}"#,
        r#"{"project": "p", "language": "l", "phases": [1], "tasks": [], "version": "1.0"}"#,
        r#"{"project": "p", "language": "l", "phases": [], "tasks": [{}], "version": "1.0"}"#,
        r#"{"project": "p", "language": "l", "phases": [], "tasks": [], "version": "1.0", "created_at": 5}"#,
    ] {
        let result = TaskList::from_json(text);
        assert!(matches!(result, Err(RalphError::Parse(m)) if m == "the snapshot is not a task list"));
    }
}

#[test]
fn optional_texts_may_be_missing() {
    let text = r#"{"project": "p", "language": "l", "phases": [], "version": "1.0", "tasks": [
        {"id": "T", "title": "", "description": "", "priority": 3, "status": "pending",
         "dependencies": [], "estimated_complexity": "medium", "files_created": [],
         "files_modified": [], "attempts": 0, "notes": "", "extra": true}]}"#;
    let list = TaskList::from_json(text).unwrap();
    assert_eq!(list.created_at, None);
    assert_eq!(list.tasks[0].user_story_id, None);
    assert_eq!(list.tasks[0].commit_hash, None);
    assert_eq!(list.tasks[0].status, TaskStatus::Pending);
}

#[test]
fn task_fields_are_checked_on_reading() {
    let task = |priority: &str, status: &str, complexity: &str| {
        format!(
            r#"{{"project": "p", "language": "l", "phases": [], "version": "1.0", "tasks": [
            {{"id": "T", "title": "", "description": "", "priority": {}, "status": "{}",
             "dependencies": [], "estimated_complexity": "{}", "files_created": [],
             "files_modified": [], "attempts": 0, "notes": ""}}]}}"#,
            priority, status, complexity
        )
    };
    assert!(TaskList::from_json(&task("3", "pending", "medium")).is_ok());
    assert!(TaskList::from_json(&task("-1", "pending", "medium")).is_err());
    assert!(TaskList::from_json(&task("4294967296", "pending", "medium")).is_err());
    assert!(TaskList::from_json(&task("1.5", "pending", "medium")).is_err());
    assert!(TaskList::from_json(&task("3", "Pending", "medium")).is_err());
    assert!(TaskList::from_json(&task("3", "pending", "extreme")).is_err());
}

#[test]
fn first_member_of_a_name_is_the_one_read() {
    let mut snapshot = sample().to_snapshot();
    if let RawValue::Object(members) = &mut snapshot {
        members.push(("project".to_string(), RawValue::text("other")));
    }
    assert_eq!(TaskList::from_snapshot(&snapshot).unwrap().project, "demo");
}

#[test]
fn stored_names_of_status_and_complexity() {
    let statuses = [
        (TaskStatus::Pending, "pending"),
        (TaskStatus::InProgress, "in_progress"),
        (TaskStatus::Completed, "completed"),
        (TaskStatus::Failed, "failed"),
        (TaskStatus::Blocked, "blocked"),
    ];
    for (status, name) in statuses {
        assert_eq!(status_text(status), name);
        assert_eq!(status_from_text(name), Some(status));
    }
    assert_eq!(status_from_text("done"), None);
    let complexities =
        [(TaskComplexity::Low, "low"), (TaskComplexity::Medium, "medium"), (TaskComplexity::High, "high")];
    for (complexity, name) in complexities {
        assert_eq!(complexity_text(complexity), name);
        assert_eq!(complexity_from_text(name), Some(complexity));
    }
    assert_eq!(complexity_from_text(""), None);
}

#[test]
fn snapshot_read_from_text_matches_the_one_written() {
    let list = sample();
    let parsed = read_json(&list.to_json().unwrap()).unwrap();
    assert_eq!(TaskList::from_snapshot(&parsed).unwrap(), list);
}
