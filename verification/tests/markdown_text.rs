use ralph::design::design_from_record;
use ralph::json::read_json;
use ralph::models::{DesignDocument, FileStructure};
use ralph::raw::RawValue;

#[test]
fn smallest_document() {
    let design = DesignDocument {
        project: "demo".to_string(),
        overview: "Does one thing.".to_string(),
        component_diagram: None,
        components: vec![],
        file_structure: None,
        technology_stack: None,
        design_decisions: vec![],
        version: "1.0".to_string(),
        created_at: None,
        updated_at: None,
    };
    assert_eq!(design.to_markdown(), "# demo\n\n## Overview\n\nDoes one thing.\n\n---\nVersion: 1.0");
}

#[test]
fn full_document() {
    let json = read_json(
        r#"{
            "project": "hello-world",
            "overview": "Prints a greeting",
            "language": "rust",
            "technology_stack": {"key_dependencies": ["clap", "serde"]},
            "architecture_diagram": "flowchart LR\n  a --> b",
            "components": [
                {"name": "cli", "purpose": "entry point", "file": "src/main.rs", "key_functions": ["main()", "run()"], "dependencies": ["core"]},
                {"name": "core", "purpose": "logic"}
            ],
            "file_structure": {"directories": ["src", "tests"], "files": ["Cargo.toml", "src/main.rs", "tests/cli.rs"]},
            "design_decisions": [{"decision": "one binary", "rationale": "small scope"}, {"decision": "no config", "rationale": "nothing to set"}]
        }"#,
    )
    .unwrap();
    let mut design = design_from_record(&json, "2024-01-01T00:00:00+00:00".to_string()).unwrap();
    design.updated_at = Some("2024-02-02T00:00:00+00:00".to_string());
    let expected = "# hello-world\n\
\n\
## Overview\n\
\n\
Prints a greeting\n\
\n\
## Technology Stack\n\
\n\
- **Language**: rust\n\
- **Testing**: cargo test\n\
- **Build Tool**: cargo\n\
- **Dependencies**: clap, serde\n\
\n\
## Architecture\n\
\n\
flowchart LR\n  a --> b\n\
\n\
## Components\n\
\n\
### cli\n\
\n\
entry point\n\
- **File**: `src/main.rs`\n\
- **Interface**: main(), run()\n\
- **Depends on**: core\n\
\n\
### core\n\
\n\
logic\n\
\n\
## File Structure\n\
\n\
```\n\
hello-world/\n\
\x20 src/\n\
\x20   main.rs\n\
\x20 tests/\n\
\x20   cli.rs\n\
\x20 Cargo.toml\n\
```\n\
\n\
## Design Decisions\n\
\n\
- one binary: small scope\n\
- no config: nothing to set\n\
\n\
---\n\
Version: 1.0\n\
Created: 2024-01-01T00:00:00+00:00\n\
Updated: 2024-02-02T00:00:00+00:00";
    assert_eq!(design.to_markdown(), expected);
}

#[test]
fn document_of_defaults() {
    let design = design_from_record(&RawValue::Null, "now".to_string()).unwrap();
    assert_eq!(
        design.to_markdown(),
        "# Untitled Project\n\n## Overview\n\n\n\n## Technology Stack\n\n- **Language**: rust\n- **Testing**: cargo test\n- **Build Tool**: cargo\n\n---\nVersion: 1.0\nCreated: now"
    );
}

#[test]
fn rendering_is_stable() {
    let mut root = FileStructure::directory("p", "Project root");
    root.children.push(FileStructure::file("a", ""));
    let design = DesignDocument {
        project: "p".to_string(),
        overview: String::new(),
        component_diagram: None,
        components: vec![],
        file_structure: Some(root),
        technology_stack: None,
        design_decisions: vec!["d".to_string()],
        version: "1.0".to_string(),
        created_at: None,
        updated_at: None,
    };
    assert_eq!(design.to_markdown(), design.to_markdown());
    assert!(design.to_markdown().contains("```\np/\n  a\n```"));
}
