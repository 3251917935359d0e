use ralph::design::{design_from_record, json_to_design_document};
use ralph::errors::RalphError;
use ralph::json::read_json;
use ralph::raw::RawValue;

#[test]
fn empty_record_gives_every_default() {
    let design = design_from_record(&RawValue::Object(vec![]), "2024-01-01T00:00:00+00:00".to_string())
        .unwrap();
    assert_eq!(design.project, "Untitled Project");
    assert_eq!(design.overview, "");
    assert_eq!(design.component_diagram, None);
    assert!(design.components.is_empty());
    assert_eq!(design.file_structure, None);
    let stack = design.technology_stack.unwrap();
    assert_eq!(stack.language, "rust");
    assert_eq!(stack.testing_framework, "cargo test");
    assert_eq!(stack.build_tool, "cargo");
    assert!(stack.dependencies.is_empty());
    assert!(stack.additional.is_empty());
    assert!(design.design_decisions.is_empty());
    assert_eq!(design.version, "1.0");
    assert_eq!(design.created_at, Some("2024-01-01T00:00:00+00:00".to_string()));
    assert_eq!(design.updated_at, None);
}

#[test]
fn absent_record_gives_every_default() {
    let design = design_from_record(&RawValue::Null, "t".to_string()).unwrap();
    assert_eq!(design.project, "Untitled Project");
    assert_eq!(design.technology_stack.unwrap().language, "rust");
}

#[test]
fn record_of_wrong_shape_is_refused() {
    for value in [
        RawValue::Bool(true),
        RawValue::Unsigned(1),
        RawValue::Signed(-1),
        RawValue::Decimal("1.5".to_string()),
        RawValue::text("design"),
        RawValue::Array(vec![]),
    ] {
        let result = design_from_record(&value, "t".to_string());
        assert!(matches!(result, Err(RalphError::InputShape(_))));
        assert!(matches!(json_to_design_document(&value), Err(RalphError::InputShape(_))));
    }
}

#[test]
fn full_record_is_mapped_field_by_field() {
    let json = read_json(
        r#"{
            "project": "hello-world",
            "overview": "Prints a greeting",
            "language": "go",
            "technology_stack": {"testing": "go test", "build_tool": "go", "key_dependencies": ["cobra", 7, "viper"]},
            "architecture_diagram": "flowchart LR",
            "components": [
                {"name": "cli", "purpose": "entry", "file": "main.go", "key_functions": ["main()"], "dependencies": ["core"]},
                {"name": "core"},
                "not a component"
            ],
            "file_structure": {"directories": ["src", "tests"], "files": ["Cargo.toml", "src/main.rs", "tests/cli.rs"]},
            "design_decisions": [
                {"decision": "one binary", "rationale": "small scope"},
                {"decision": "no config"},
                {}
            ]
        }"#,
    )
    .unwrap();
    let design = design_from_record(&json, "now".to_string()).unwrap();
    assert_eq!(design.project, "hello-world");
    assert_eq!(design.overview, "Prints a greeting");
    assert_eq!(design.component_diagram, Some("flowchart LR".to_string()));
    let stack = design.technology_stack.unwrap();
    assert_eq!(stack.language, "go");
    assert_eq!(stack.testing_framework, "go test");
    assert_eq!(stack.build_tool, "go");
    assert_eq!(stack.dependencies, vec!["cobra".to_string(), "viper".to_string()]);
    assert_eq!(design.components.len(), 3);
    assert_eq!(design.components[0].name, "cli");
    assert_eq!(design.components[0].purpose, "entry");
    assert_eq!(design.components[0].file_path, Some("main.go".to_string()));
    assert_eq!(design.components[0].interface, vec!["main()".to_string()]);
    assert_eq!(design.components[0].dependencies, vec!["core".to_string()]);
    assert_eq!(design.components[1].name, "core");
    assert_eq!(design.components[1].purpose, "");
    assert_eq!(design.components[1].file_path, None);
    assert!(design.components[1].interface.is_empty());
    assert!(design.components[1].dependencies.is_empty());
    assert_eq!(design.components[2].name, "");
    assert_eq!(
        design.design_decisions,
        vec!["one binary: small scope".to_string(), "no config: ".to_string(), ": ".to_string()]
    );
    let root = design.file_structure.unwrap();
    assert_eq!(root.name, "hello-world");
    let top: Vec<&str> = root.children.iter().map(|c| c.name.as_str()).collect();
    assert_eq!(top, vec!["src", "tests", "Cargo.toml"]);
    assert_eq!(root.children[0].children[0].name, "main.rs");
    assert_eq!(root.children[1].children[0].name, "cli.rs");
}

#[test]
fn mistyped_fields_fall_back_to_defaults() {
    let json = read_json(
        r#"{"project": 5, "overview": [], "language": null, "technology_stack": "cargo",
            "architecture_diagram": 1, "components": {"name": "x"}, "file_structure": 3,
            "design_decisions": "none"}"#,
    )
    .unwrap();
    let design = design_from_record(&json, "now".to_string()).unwrap();
    assert_eq!(design.project, "Untitled Project");
    assert_eq!(design.overview, "");
    assert_eq!(design.component_diagram, None);
    assert!(design.components.is_empty());
    assert_eq!(design.file_structure, None);
    assert!(design.design_decisions.is_empty());
    let stack = design.technology_stack.unwrap();
    assert_eq!(stack.language, "rust");
    assert_eq!(stack.testing_framework, "cargo test");
    assert_eq!(stack.build_tool, "cargo");
}

#[test]
fn tree_is_named_after_the_project_of_the_record() {
    let json = read_json(r#"{"project": "Demo App", "file_structure": {"files": ["demo-app/a.x", "Demo App/b.x"]}}"#)
        .unwrap();
    let design = design_from_record(&json, "now".to_string()).unwrap();
    let root = design.file_structure.unwrap();
    assert_eq!(root.name, "Demo App");
    let top: Vec<&str> = root.children.iter().map(|c| c.name.as_str()).collect();
    assert_eq!(top, vec!["a.x", "b.x"]);
}

#[test]
fn document_is_stamped_with_a_time() {
    let design = json_to_design_document(&RawValue::Object(vec![])).unwrap();
    let stamp = design.created_at.unwrap();
    assert!(stamp.len() >= 20);
    assert!(stamp.contains('T'));
    assert_eq!(design.updated_at, None);
    assert_eq!(design.version, "1.0");
}

#[test]
fn refusal_says_what_is_wrong() {
    match design_from_record(&RawValue::Bool(true), "t".to_string()) {
        Err(error) => {
            assert_eq!(error, RalphError::InputShape("the design record is not an object".to_string()));
            assert_eq!(error.describe(), "input shape error: the design record is not an object");
        }
        Ok(_) => panic!("a truth value is no record"),
    }
}
