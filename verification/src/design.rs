//! Assembling a design document from a raw record.

use vstd::prelude::*;
use crate::clock::current_timestamp;
use crate::errors::RalphError;
use crate::models::{
    Component,
    ComponentModel,
    DesignDocument,
    DesignModel,
    TechnologyStack,
    TechnologyStackModel,
};
use crate::raw::{items_of, member, owned_text, string_list, text_or, RawModel, RawValue};
use crate::structure::{file_structure_spec, parse_file_structure};

verus! {

/// The project name of a record that gives none.
pub open spec fn default_project() -> Seq<char> {
    "Untitled Project"@
}

/// The language of a record that gives none.
pub open spec fn default_language() -> Seq<char> {
    "rust"@
}

/// The test runner of a record that gives none.
pub open spec fn default_testing() -> Seq<char> {
    "cargo test"@
}

/// The build tool of a record that gives none.
pub open spec fn default_build_tool() -> Seq<char> {
    "cargo"@
}

/// The version of the schema that documents are written in.
pub open spec fn schema_version() -> Seq<char> {
    "1.0"@
}

/// The message for a design record of the wrong shape.
pub open spec fn not_a_design_record() -> Seq<char> {
    "the design record is not an object"@
}

/// The component that a raw entry describes.
pub open spec fn component_spec(entry: RawModel) -> ComponentModel {
    ComponentModel {
        name: entry.field("name"@).text_or(""@),
        purpose: entry.field("purpose"@).text_or(""@),
        file_path: entry.field("file"@).as_text(),
        interface: entry.field("key_functions"@).string_list(),
        dependencies: entry.field("dependencies"@).string_list(),
    }
}

/// The components that a raw value lists: one for each item of a list, none
/// for anything else.
pub open spec fn components_spec(value: RawModel) -> Seq<ComponentModel> {
    match value {
        RawModel::Array(items) => Seq::new(items.len(), |i: int| component_spec(items[i])),
        _ => Seq::empty(),
    }
}

/// The statement for one decision: `<decision>: <rationale>`.
pub open spec fn decision_spec(entry: RawModel) -> Seq<char> {
    entry.field("decision"@).text_or(""@) + ": "@ + entry.field("rationale"@).text_or(""@)
}

/// The statements for a raw value: one for each item of a list, none for
/// anything else.
pub open spec fn decisions_spec(value: RawModel) -> Seq<Seq<char>> {
    match value {
        RawModel::Array(items) => Seq::new(items.len(), |i: int| decision_spec(items[i])),
        _ => Seq::empty(),
    }
}

/// The technology stack of a record.
pub open spec fn technology_stack_spec(json: RawModel) -> TechnologyStackModel {
    let stack = json.field("technology_stack"@);
    TechnologyStackModel {
        language: json.field("language"@).text_or(default_language()),
        testing_framework: stack.field("testing"@).text_or(default_testing()),
        build_tool: stack.field("build_tool"@).text_or(default_build_tool()),
        dependencies: stack.field("key_dependencies"@).string_list(),
        additional: Seq::empty(),
    }
}

/// The design document for a record, created at the given time. Every field
/// that is missing or of the wrong type has its default.
pub open spec fn design_spec(json: RawModel, created_at: Seq<char>) -> DesignModel {
    let project = json.field("project"@).text_or(default_project());
    DesignModel {
        project,
        overview: json.field("overview"@).text_or(""@),
        component_diagram: json.field("architecture_diagram"@).as_text(),
        components: components_spec(json.field("components"@)),
        file_structure: file_structure_spec(json.field("file_structure"@), project),
        technology_stack: Some(technology_stack_spec(json)),
        design_decisions: decisions_spec(json.field("design_decisions"@)),
        version: schema_version(),
        created_at: Some(created_at),
        updated_at: None,
    }
}

/// Reads one component.
fn component_from(entry: &RawValue) -> (c: Component)
    ensures
        c@ == component_spec(entry@),
{
    Component {
        name: text_or(entry.get("name"), ""),
        purpose: text_or(entry.get("purpose"), ""),
        file_path: owned_text(entry.get("file")),
        interface: string_list(entry.get("key_functions")),
        dependencies: string_list(entry.get("dependencies")),
    }
}

/// Reads the list of components.
fn components_from(value: Option<&RawValue>) -> (out: Vec<Component>)
    ensures
        out.deep_view() == components_spec(crate::raw::model_of(value)),
{
    let mut out: Vec<Component> = Vec::new();
    match items_of(value) {
        Some(items) => {
            let mut i: usize = 0;
            while i < items.len()
                invariant
                    i <= items.len(),
                    out.len() == i,
                    forall|k: int| 0 <= k < i ==> (#[trigger] out[k])@ == component_spec(items[k]@),
                decreases items.len() - i,
            {
                out.push(component_from(&items[i]));
                i += 1;
            }
        },
        None => {},
    }
    out
}

/// Writes one decision as a statement.
fn decision_from(entry: &RawValue) -> (s: String)
    ensures
        s@ == decision_spec(entry@),
{
    let mut s = text_or(entry.get("decision"), "");
    s.append(": ");
    let rationale = text_or(entry.get("rationale"), "");
    s.append(rationale.as_str());
    s
}

/// Reads the list of decisions.
fn decisions_from(value: Option<&RawValue>) -> (out: Vec<String>)
    ensures
        out.deep_view() == decisions_spec(crate::raw::model_of(value)),
{
    let mut out: Vec<String> = Vec::new();
    match items_of(value) {
        Some(items) => {
            let mut i: usize = 0;
            while i < items.len()
                invariant
                    i <= items.len(),
                    out.len() == i,
                    forall|k: int| 0 <= k < i ==> (#[trigger] out[k])@ == decision_spec(items[k]@),
                decreases items.len() - i,
            {
                out.push(decision_from(&items[i]));
                i += 1;
            }
        },
        None => {},
    }
    out
}

/// Assembles the design document for a record, with the given time of
/// creation.
///
/// A record is an object; the absent value is read as an object without
/// members. Any other value is refused. No field of a record can make the
/// assembly fail.
pub fn design_from_record(json: &RawValue, created_at: String) -> (r: Result<
    DesignDocument,
    RalphError,
>)
    ensures
        r is Ok <==> json@.is_record(),
        r matches Ok(design) ==> design@ == design_spec(json@, created_at@),
        r matches Err(e) ==> e matches RalphError::InputShape(m) && m@ == not_a_design_record(),
{
    if !json.is_object() && !json.is_null() {
        return Err(RalphError::InputShape("the design record is not an object".to_owned()));
    }
    let project = text_or(json.get("project"), "Untitled Project");
    let overview = text_or(json.get("overview"), "");
    let language = text_or(json.get("language"), "rust");
    let stack = json.get("technology_stack");
    let technology_stack = TechnologyStack {
        language,
        testing_framework: text_or(member(stack, "testing"), "cargo test"),
        build_tool: text_or(member(stack, "build_tool"), "cargo"),
        dependencies: string_list(member(stack, "key_dependencies")),
        additional: Vec::new(),
    };
    assert(technology_stack@.additional =~= Seq::empty());
    let component_diagram = owned_text(json.get("architecture_diagram"));
    let components = components_from(json.get("components"));
    let design_decisions = decisions_from(json.get("design_decisions"));
    let file_structure = match json.get("file_structure") {
        Some(value) => parse_file_structure(value, project.as_str()),
        None => None,
    };
    Ok(
        DesignDocument {
            project,
            overview,
            component_diagram,
            components,
            file_structure,
            technology_stack: Some(technology_stack),
            design_decisions,
            version: "1.0".to_owned(),
            created_at: Some(created_at),
            updated_at: None,
        },
    )
}

/// Assembles the design document for a record and stamps it with the
/// current time. But for the stamp the document is what `design_spec` gives.
pub fn json_to_design_document(json: &RawValue) -> (r: Result<DesignDocument, RalphError>)
    ensures
        r is Ok <==> json@.is_record(),
        r matches Ok(design) ==> design@.created_at is Some && design@ == design_spec(
            json@,
            design@.created_at->0,
        ),
        r matches Err(e) ==> e matches RalphError::InputShape(m) && m@ == not_a_design_record(),
{
    design_from_record(json, current_timestamp())
}

} // verus!
