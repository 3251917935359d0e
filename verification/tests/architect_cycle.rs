use ralph::architect::{
    architect_prompt, documents_from_record, documents_from_response, instruction, parse_failure, session_name,
};
use ralph::errors::RalphError;
use ralph::json::read_json;

#[test]
fn test_architect_instruction_content() {
    let instruction = instruction();
    assert!(instruction.contains("design"));
    assert!(instruction.contains("tasks"));
    assert!(instruction.contains("components"));
}

#[test]
fn prompt_wraps_the_requirements() {
    assert_eq!(
        architect_prompt("Build X"),
        "Generate the system design and task breakdown for the following PRD:\n\n---\nBuild X\n---"
    );
}

#[test]
fn session_is_named_after_its_token() {
    assert_eq!(session_name("1234"), "architect-1234");
}

#[test]
fn response_gives_both_documents() {
    let response = r#"{
        "design": {"project": "hello-world", "language": "rust",
                   "file_structure": {"directories": ["src"], "files": ["Cargo.toml", "src/main.rs"]}},
        "tasks": [{"id": "T-001", "title": "Set up", "priority": 1, "estimated_complexity": "low"}]
    }"#;
    let (design, tasks) = documents_from_response(response).unwrap();
    assert_eq!(design.project, "hello-world");
    assert_eq!(tasks.project, "hello-world");
    assert_eq!(tasks.language, "rust");
    assert_eq!(tasks.tasks.len(), 1);
    assert_eq!(tasks.tasks[0].id, "T-001");
    assert_eq!(design.file_structure.unwrap().children.len(), 2);
    assert!(design.created_at.is_some());
    assert!(tasks.created_at.is_some());
}

#[test]
fn response_without_design_uses_the_placeholder_project() {
    let (design, tasks) = documents_from_response(r#"{"tasks": []}"#).unwrap();
    assert_eq!(design.project, "Untitled Project");
    assert_eq!(tasks.project, "Untitled Project");
    let (design, tasks) = documents_from_response("null").unwrap();
    assert_eq!(design.project, "Untitled Project");
    assert!(tasks.tasks.is_empty());
}

#[test]
fn response_that_is_no_json_is_a_parse_error() {
    let long = "x".repeat(600);
    match documents_from_response(&long) {
        Err(RalphError::Parse(message)) => {
            assert!(message.starts_with("Failed to parse architect JSON: "));
            assert!(message.ends_with(&format!(" - Response: {}", "x".repeat(500))));
        }
        other => panic!("unexpected result: {:?}", other.map(|_| ())),
    }
}

#[test]
fn response_of_wrong_shape_is_an_input_shape_error() {
    assert!(matches!(documents_from_response("[1, 2]"), Err(RalphError::InputShape(_))));
    assert!(matches!(documents_from_response("\"text\""), Err(RalphError::InputShape(_))));
    assert!(matches!(documents_from_response(r#"{"design": 5}"#), Err(RalphError::InputShape(_))));
    assert!(matches!(documents_from_response(r#"{"design": []}"#), Err(RalphError::InputShape(_))));
    let json = read_json(r#"{"design": "x"}"#).unwrap();
    assert!(matches!(documents_from_record(&json), Err(RalphError::InputShape(_))));
}

#[test]
fn parse_failure_quotes_the_start_of_the_response() {
    let error = parse_failure("expected value", "short");
    assert_eq!(
        error,
        RalphError::Parse("Failed to parse architect JSON: expected value - Response: short".to_string())
    );
    let response = "é".repeat(501);
    match parse_failure("e", &response) {
        RalphError::Parse(message) => {
            assert_eq!(message, format!("Failed to parse architect JSON: e - Response: {}", "é".repeat(250)))
        }
        other => panic!("unexpected error: {:?}", other),
    }
    let response = format!("a{}", "é".repeat(300));
    match parse_failure("e", &response) {
        RalphError::Parse(message) => {
            assert_eq!(message, format!("Failed to parse architect JSON: e - Response: a{}", "é".repeat(249)))
        }
        other => panic!("unexpected error: {:?}", other),
    }
}

#[test]
fn errors_describe_themselves() {
    assert_eq!(RalphError::InputShape("m".to_string()).describe(), "input shape error: m");
    assert_eq!(RalphError::Parse("m".to_string()).describe(), "parse error: m");
    assert_eq!(
        RalphError::Io { path: "tasks.json".to_string(), cause: "denied".to_string() }.describe(),
        "i/o error at tasks.json: denied"
    );
}
