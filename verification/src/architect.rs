//! One cycle of generation: the request that is sent, and the two documents
//! that are read from the text that comes back.

use vstd::prelude::*;
use crate::design::{design_spec, json_to_design_document};
use crate::errors::RalphError;
use crate::json::{parse_json, parsed_json};
use crate::models::{DesignDocument, TaskList};
use crate::raw::{RawModel, RawValue};
use crate::tasks::{json_to_task_list, task_list_spec};
use crate::text::{clip, clip_spec};

verus! {

/// The instruction that tells a generator what to produce: a design and a
/// list of tasks, in the shape that this crate reads.
pub const ARCHITECT_INSTRUCTION: &'static str = r#"You are a senior software architect. Your job is to read the PRD and produce a design that is proportional to the problem — nothing more, nothing less.

## Your Core Principle: Proportional Design

The single most important thing you do is match the architecture to the actual scope:

- A "hello world" program needs ONE file and ONE task. No abstractions, no modules, no tests.
- A CLI calculator needs a few files, simple structure, maybe 3-5 tasks.
- A REST API with auth, database, and multiple endpoints needs proper layering, clear module boundaries, and 10-20 tasks.
- An operating system kernel needs deep architectural thinking, subsystem decomposition, interface contracts, and 50+ tasks.

**Read the PRD carefully. Count the user stories. Look at the acceptance criteria. That tells you the real scope.** If there are 2 user stories, you should not produce 15 tasks. If there are 20 user stories with complex interactions, don't try to squeeze it into 5 tasks.

## How to Think About This

Before writing anything, ask yourself:
1. What is the simplest architecture that satisfies ALL the acceptance criteria?
2. How many moving parts does this actually need?
3. What are the real technical risks or unknowns?
4. What decisions will be hard to change later? (Those deserve thought. The rest don't.)

Don't add layers of abstraction "for future extensibility" unless the PRD explicitly asks for extensibility. Don't create interfaces with single implementations. Don't split into microservices what could be a function call.

Conversely, don't under-design complex systems. If the PRD describes a distributed system, design a distributed system. If it needs authentication, design proper auth — don't hand-wave it.

## Output Format

Generate a JSON response with two sections: `design` and `tasks`.

### Design Section

```json
{
  "design": {
    "project": "project-name",
    "overview": "What this system does and how it's structured, in plain language",
    "language": "rust",
    "technology_stack": {
      "testing": "cargo test",
      "build": "cargo",
      "dependencies": ["serde", "clap"]
    },
    "architecture_diagram": "```mermaid\nflowchart ...\n```",
    "components": [
      {
        "name": "component-name",
        "purpose": "what it does",
        "file_path": "src/component.rs",
        "key_functions": ["fn main()"],
        "dependencies": []
      }
    ],
    "file_structure": {
      "directories": ["src"],
      "files": ["Cargo.toml", "src/main.rs"]
    },
    "design_decisions": [
      {
        "decision": "what was decided",
        "rationale": "why"
      }
    ]
  }
}
```

### Tasks Section

```json
{
  "tasks": [
    {
      "id": "T-001",
      "title": "short description",
      "description": "what to implement",
      "priority": 1,
      "estimated_complexity": "low",
      "dependencies": [],
      "user_story_id": "US-001",
      "files_to_create": ["src/main.rs"],
      "files_to_modify": [],
      "acceptance_criteria": ["WHEN x, THE system SHALL y"]
    }
  ]
}
```

## File Structure Rules

- The project root directory already exists — do NOT include it in paths
- Use paths relative to project root (e.g., "src/main.rs" not "my-project/src/main.rs")
- Do NOT create wrapper directories named after the project
- Do NOT prefix paths with the project name (WRONG: "hello-world/src/main.rs", RIGHT: "src/main.rs")
- In the file_structure tree, start from the project root contents, not the project folder itself
- Follow standard conventions for the target language
- Only create directories that are actually needed

## Task Guidelines

- Each task maps to real work that produces a testable result
- Priority: 1 = must do first, 2 = important, 3 = standard, 4 = polish, 5 = optional
- Complexity: "low" (< 30 min), "medium" (30 min - 2 hrs), "high" (2+ hrs)
- First task sets up project structure and builds successfully (no dependencies)
- Order: project setup → core logic → features → integration → polish
- Link every task to a user story from the PRD
- Use relative paths in files_to_create and files_to_modify

## Scaling Examples

**Trivial project (1-2 user stories):**
- 1-2 files, 0-1 directories, 1-3 tasks
- No architecture diagram needed
- Maybe 1 design decision or none

**Small project (3-5 user stories):**
- 3-6 files, 1-2 directories, 4-8 tasks
- Simple architecture diagram
- 2-3 design decisions

**Medium project (6-12 user stories):**
- 8-15 files, 3-5 directories, 8-15 tasks
- Clear component diagram with data flow
- 4-6 design decisions covering key tradeoffs

**Large project (12+ user stories):**
- 15+ files, proper module hierarchy, 15-30+ tasks
- Detailed architecture with subsystem boundaries
- Thorough design decisions covering scalability, security, error handling
"#;

/// The name of the file that holds the requirements, within a project.
pub const PRD_FILE: &'static str = "prd.md";

/// The name of the file that the design is written to, within a project.
pub const DESIGN_FILE: &'static str = "design.md";

/// The name of the file that the task list is written to, within a project.
pub const TASKS_FILE: &'static str = "tasks.json";

/// How many bytes of a response are quoted in an error.
pub const RESPONSE_EXCERPT: usize = 500;

/// The instruction for the generator.
pub fn instruction() -> (text: &'static str)
    ensures
        text@ == ARCHITECT_INSTRUCTION@,
{
    ARCHITECT_INSTRUCTION
}

/// The request that asks for the design of what `prd` describes.
pub open spec fn architect_prompt_spec(prd: Seq<char>) -> Seq<char> {
    "Generate the system design and task breakdown for the following PRD:\n\n---\n"@ + prd
        + "\n---"@
}

/// The request that asks for the design of what `prd_content` describes.
pub fn architect_prompt(prd_content: &str) -> (prompt: String)
    ensures
        prompt@ == architect_prompt_spec(prd_content@),
{
    let mut prompt =
        "Generate the system design and task breakdown for the following PRD:\n\n---\n".to_owned();
    prompt.append(prd_content);
    prompt.append("\n---");
    prompt
}

/// The name of the session that runs under the given token.
pub fn session_name(token: &str) -> (name: String)
    ensures
        name@ == "architect-"@ + token@,
{
    let mut name = "architect-".to_owned();
    name.append(token);
    name
}

/// The start of a response: its first `RESPONSE_EXCERPT` bytes, or fewer
/// where that would cut a character in two, or all of it where it is
/// shorter.
pub open spec fn excerpt_spec(response: Seq<char>) -> Seq<char> {
    clip_spec(response, RESPONSE_EXCERPT as nat)
}

/// The message for a response that is no JSON text.
pub open spec fn parse_failure_spec(error: Seq<char>, response: Seq<char>) -> Seq<char> {
    "Failed to parse architect JSON: "@ + error + " - Response: "@ + excerpt_spec(response)
}

/// The error for a response that is no JSON text: it gives the parser's
/// message and the start of the response.
pub fn parse_failure(error: &str, response: &str) -> (e: RalphError)
    ensures
        e matches RalphError::Parse(m) && m@ == parse_failure_spec(error@, response@),
{
    let excerpt = clip(response, RESPONSE_EXCERPT);
    let mut message = "Failed to parse architect JSON: ".to_owned();
    message.append(error);
    message.append(" - Response: ");
    message.append(excerpt);
    RalphError::Parse(message)
}

/// Whether both documents can be read from a value: the value is a record,
/// and so is its member `design`.
pub open spec fn is_architect_record(json: RawModel) -> bool {
    json.is_record() && json.field("design"@).is_record()
}

/// Reads the design document from the member `design` of a value and the
/// task list from the value itself, for the project that the design names.
/// Each document is stamped with the time at which it was read.
pub fn documents_from_record(json: &RawValue) -> (r: Result<(DesignDocument, TaskList), RalphError>)
    ensures
        r is Ok <==> is_architect_record(json@),
        r matches Ok(documents) ==> {
            &&& documents.0@.created_at is Some
            &&& documents.1@.created_at is Some
            &&& documents.0@ == design_spec(json@.field("design"@), documents.0@.created_at->0)
            &&& documents.1@ == task_list_spec(
                json@,
                documents.0@.project,
                documents.1@.created_at->0,
            )
        },
        r matches Err(e) ==> e is InputShape,
{
    let absent = RawValue::Null;
    let record = match json.get("design") {
        Some(value) => value,
        None => &absent,
    };
    let design = match json_to_design_document(record) {
        Ok(design) => design,
        Err(e) => {
            return Err(e);
        },
    };
    match json_to_task_list(json, design.project.as_str()) {
        Ok(tasks) => Ok((design, tasks)),
        Err(e) => Err(e),
    }
}

/// Reads both documents from the text of a response. A text that is no JSON
/// is a parse error; a JSON value of the wrong shape is an input-shape error.
pub fn documents_from_response(response_text: &str) -> (r: Result<
    (DesignDocument, TaskList),
    RalphError,
>)
    ensures
        match parsed_json(response_text@) {
            Ok(json) => {
                &&& r is Ok <==> is_architect_record(json)
                &&& r matches Ok(documents) ==> {
                    &&& documents.0@.created_at is Some
                    &&& documents.1@.created_at is Some
                    &&& documents.0@ == design_spec(
                        json.field("design"@),
                        documents.0@.created_at->0,
                    )
                    &&& documents.1@ == task_list_spec(
                        json,
                        documents.0@.project,
                        documents.1@.created_at->0,
                    )
                }
                &&& r matches Err(e) ==> e is InputShape
            },
            Err(message) => r matches Err(RalphError::Parse(m)) && m@ == parse_failure_spec(
                message,
                response_text@,
            ),
        },
{
    match parse_json(response_text) {
        Ok(json) => documents_from_record(&json),
        Err(message) => Err(parse_failure(message.as_str(), response_text)),
    }
}

} // verus!
