//! The design document as text for people to read.
//!
//! The document is a list of lines, joined by line feeds. A field that holds
//! line feeds itself spans several lines of the text.

use vstd::prelude::*;
use crate::models::{
    Component,
    ComponentModel,
    DesignDocument,
    DesignModel,
    FileNode,
    FileStructure,
    TechnologyStack,
    TechnologyStackModel,
};
use crate::text::{join_lines, join_with_newlines};

verus! {

/// `items` joined by `, `.
pub open spec fn comma_list(items: Seq<Seq<char>>) -> Seq<char>
    decreases items.len(),
{
    if items.len() == 0 {
        Seq::empty()
    } else if items.len() == 1 {
        items[0]
    } else {
        comma_list(items.drop_last()) + ", "@ + items.last()
    }
}

/// The line for a list under a label; no line for an empty list.
pub open spec fn list_line(label: Seq<char>, items: Seq<Seq<char>>) -> Seq<Seq<char>> {
    if items.len() == 0 {
        Seq::empty()
    } else {
        seq![label + comma_list(items)]
    }
}

/// The lines of a section: an empty line, the heading, an empty line.
pub open spec fn heading(title: Seq<char>) -> Seq<Seq<char>> {
    seq![Seq::empty(), title, Seq::empty()]
}

/// The lines for the technology stack.
pub open spec fn stack_lines(stack: Option<TechnologyStackModel>) -> Seq<Seq<char>> {
    match stack {
        Some(s) => heading("## Technology Stack"@) + seq![
            "- **Language**: "@ + s.language,
            "- **Testing**: "@ + s.testing_framework,
            "- **Build Tool**: "@ + s.build_tool,
        ] + list_line("- **Dependencies**: "@, s.dependencies),
        None => Seq::empty(),
    }
}

/// The lines for the diagram.
pub open spec fn diagram_lines(diagram: Option<Seq<char>>) -> Seq<Seq<char>> {
    match diagram {
        Some(d) => heading("## Architecture"@) + seq![d],
        None => Seq::empty(),
    }
}

/// The line for the file of a component.
pub open spec fn file_line(path: Option<Seq<char>>) -> Seq<Seq<char>> {
    match path {
        Some(p) => seq!["- **File**: `"@ + p + "`"@],
        None => Seq::empty(),
    }
}

/// The lines for one component.
pub open spec fn component_lines(c: ComponentModel) -> Seq<Seq<char>> {
    heading("### "@ + c.name) + seq![c.purpose] + file_line(c.file_path) + list_line(
        "- **Interface**: "@,
        c.interface,
    ) + list_line("- **Depends on**: "@, c.dependencies)
}

/// The lines for the first `upto` components.
pub open spec fn components_lines(components: Seq<ComponentModel>, upto: nat) -> Seq<Seq<char>>
    decreases upto,
{
    if upto == 0 || upto > components.len() {
        Seq::empty()
    } else {
        components_lines(components, (upto - 1) as nat) + component_lines(components[upto - 1])
    }
}

/// The lines for the components; none where there is no component.
pub open spec fn components_section(components: Seq<ComponentModel>) -> Seq<Seq<char>> {
    if components.len() == 0 {
        Seq::empty()
    } else {
        heading("## Components"@).drop_last() + components_lines(components, components.len())
    }
}

/// The line for one node of the tree: its name behind the indent, with a
/// slash behind a directory.
pub open spec fn node_line(node: FileNode, indent: Seq<char>) -> Seq<char> {
    if node.is_directory {
        indent + node.name + "/"@
    } else {
        indent + node.name
    }
}

/// The lines for a node and everything below it, each level indented by two
/// more spaces.
pub open spec fn tree_lines(node: FileNode, indent: Seq<char>) -> Seq<Seq<char>>
    decreases node, node.children.len() + 1,
{
    seq![node_line(node, indent)] + children_lines(node, indent + "  "@, node.children.len())
}

/// The lines for the first `upto` children of a node.
pub open spec fn children_lines(node: FileNode, indent: Seq<char>, upto: nat) -> Seq<Seq<char>>
    decreases node, upto,
{
    if upto == 0 || upto > node.children.len() {
        Seq::empty()
    } else {
        children_lines(node, indent, (upto - 1) as nat) + tree_lines(
            node.children[upto - 1],
            indent,
        )
    }
}

/// The lines for the project tree.
pub open spec fn structure_lines(tree: Option<FileNode>) -> Seq<Seq<char>> {
    match tree {
        Some(root) => heading("## File Structure"@) + seq!["```"@] + tree_lines(
            root,
            Seq::empty(),
        ) + seq!["```"@],
        None => Seq::empty(),
    }
}

/// The lines for the first `upto` decisions.
pub open spec fn decision_lines(decisions: Seq<Seq<char>>, upto: nat) -> Seq<Seq<char>>
    decreases upto,
{
    if upto == 0 || upto > decisions.len() {
        Seq::empty()
    } else {
        decision_lines(decisions, (upto - 1) as nat).push("- "@ + decisions[upto - 1])
    }
}

/// The lines for the decisions; none where there is no decision.
pub open spec fn decisions_section(decisions: Seq<Seq<char>>) -> Seq<Seq<char>> {
    if decisions.len() == 0 {
        Seq::empty()
    } else {
        heading("## Design Decisions"@) + decision_lines(decisions, decisions.len())
    }
}

/// The line for a time, if there is one.
pub open spec fn time_line(label: Seq<char>, time: Option<Seq<char>>) -> Seq<Seq<char>> {
    match time {
        Some(t) => seq![label + t],
        None => Seq::empty(),
    }
}

/// The lines of the whole document.
pub open spec fn design_lines(d: DesignModel) -> Seq<Seq<char>> {
    seq!["# "@ + d.project] + heading("## Overview"@) + seq![d.overview] + stack_lines(
        d.technology_stack,
    ) + diagram_lines(d.component_diagram) + components_section(d.components) + structure_lines(
        d.file_structure,
    ) + decisions_section(d.design_decisions) + seq![Seq::empty(), "---"@, "Version: "@ + d.version]
        + time_line("Created: "@, d.created_at) + time_line("Updated: "@, d.updated_at)
}

/// The document as text.
pub open spec fn markdown_spec(d: DesignModel) -> Seq<char> {
    join_lines(design_lines(d))
}

/// Joins `items` with `, `.
fn comma_joined(items: &Vec<String>) -> (s: String)
    ensures
        s@ == comma_list(items.deep_view()),
{
    let mut s = String::new();
    let mut i: usize = 0;
    while i < items.len()
        invariant
            i <= items.len(),
            s@ == comma_list(items.deep_view().take(i as int)),
        decreases items.len() - i,
    {
        let ghost before = items.deep_view().take(i as int);
        let ghost after = items.deep_view().take(i + 1);
        assert(after.drop_last() =~= before);
        if i > 0 {
            s.append(", ");
        }
        s.append(items[i].as_str());
        i += 1;
    }
    assert(items.deep_view().take(i as int) =~= items.deep_view());
    s
}

/// Adds the line `prefix + text + suffix`.
fn push_line(out: &mut Vec<String>, prefix: &str, text: &str, suffix: &str)
    ensures
        final(out).deep_view() == old(out).deep_view().push(prefix@ + text@ + suffix@),
{
    let mut line = prefix.to_owned();
    line.append(text);
    line.append(suffix);
    out.push(line);
}

/// Adds the lines of a heading.
fn push_heading(out: &mut Vec<String>, prefix: &str, title: &str)
    ensures
        final(out).deep_view() == old(out).deep_view() + heading(prefix@ + title@),
{
    proof {
        reveal_strlit("");
        assert(""@ + ""@ + ""@ =~= Seq::<char>::empty());
    }
    push_line(out, "", "", "");
    push_line(out, prefix, title, "");
    push_line(out, "", "", "");
}

/// Adds the line for a list, if the list is not empty.
fn push_list(out: &mut Vec<String>, label: &str, items: &Vec<String>)
    ensures
        final(out).deep_view() == old(out).deep_view() + list_line(label@, items.deep_view()),
{
    if items.len() > 0 {
        let joined = comma_joined(items);
        proof {
            reveal_strlit("");
        }
        push_line(out, label, joined.as_str(), "");
    }
}

/// Adds the line for a time, if there is one.
fn push_time(out: &mut Vec<String>, label: &str, time: &Option<String>)
    ensures
        final(out).deep_view() == old(out).deep_view() + time_line(label@, time.deep_view()),
{
    match time {
        Some(t) => {
            proof {
                reveal_strlit("");
            }
            push_line(out, label, t.as_str(), "");
        },
        None => {},
    }
}

/// Adds the lines for the technology stack.
fn push_stack(out: &mut Vec<String>, stack: &Option<TechnologyStack>)
    ensures
        final(out).deep_view() == old(out).deep_view() + stack_lines(stack.deep_view()),
{
    match stack {
        Some(s) => {
            proof {
                reveal_strlit("");
            }
            push_heading(out, "", "## Technology Stack");
            push_line(out, "- **Language**: ", s.language.as_str(), "");
            push_line(out, "- **Testing**: ", s.testing_framework.as_str(), "");
            push_line(out, "- **Build Tool**: ", s.build_tool.as_str(), "");
            push_list(out, "- **Dependencies**: ", &s.dependencies);
        },
        None => {},
    }
}

/// Adds the lines for one component.
fn push_component(out: &mut Vec<String>, c: &Component)
    ensures
        final(out).deep_view() == old(out).deep_view() + component_lines(c@),
{
    proof {
        reveal_strlit("");
    }
    push_heading(out, "### ", c.name.as_str());
    push_line(out, "", c.purpose.as_str(), "");
    match &c.file_path {
        Some(p) => {
            push_line(out, "- **File**: `", p.as_str(), "`");
        },
        None => {},
    }
    push_list(out, "- **Interface**: ", &c.interface);
    push_list(out, "- **Depends on**: ", &c.dependencies);
}

/// Adds the lines for a node and everything below it.
fn push_tree(out: &mut Vec<String>, node: &FileStructure, indent: &str)
    ensures
        final(out).deep_view() == old(out).deep_view() + tree_lines(node@, indent@),
    decreases node,
{
    let ghost before = out.deep_view();
    proof {
        reveal_strlit("");
    }
    if node.is_directory {
        push_line(out, indent, node.name.as_str(), "/");
    } else {
        push_line(out, indent, node.name.as_str(), "");
    }
    let mut deeper = indent.to_owned();
    deeper.append("  ");
    let mut i: usize = 0;
    while i < node.children.len()
        invariant
            i <= node.children.len(),
            node@.children.len() == node.children.len(),
            deeper@ == indent@ + "  "@,
            out.deep_view() == before + seq![node_line(node@, indent@)] + children_lines(
                node@,
                deeper@,
                i as nat,
            ),
        decreases node.children.len() - i,
    {
        push_tree(out, &node.children[i], deeper.as_str());
        i += 1;
    }
}

impl DesignDocument {
    /// The document as text: a title, the overview, the technology stack,
    /// the diagram, the components, the project tree and the decisions, each
    /// under its heading and each only where there is something to show.
    pub fn to_markdown(&self) -> (text: String)
        ensures
            text@ == markdown_spec(self@),
    {
        let mut out: Vec<String> = Vec::new();
        proof {
            reveal_strlit("");
            assert(""@ + ""@ + ""@ =~= Seq::<char>::empty());
        }
        push_line(&mut out, "# ", self.project.as_str(), "");
        push_heading(&mut out, "", "## Overview");
        push_line(&mut out, "", self.overview.as_str(), "");
        assert(out.deep_view() =~= seq!["# "@ + self@.project] + heading("## Overview"@)
            + seq![self@.overview]);
        push_stack(&mut out, &self.technology_stack);
        let ghost head = out.deep_view();
        match &self.component_diagram {
            Some(d) => {
                push_heading(&mut out, "", "## Architecture");
                push_line(&mut out, "", d.as_str(), "");
            },
            None => {},
        }
        assert(out.deep_view() =~= head + diagram_lines(self@.component_diagram));
        let ghost head = out.deep_view();
        if self.components.len() > 0 {
            push_line(&mut out, "", "", "");
            push_line(&mut out, "", "## Components", "");
            let ghost start = out.deep_view();
            let mut i: usize = 0;
            while i < self.components.len()
                invariant
                    i <= self.components.len(),
                    self@.components.len() == self.components.len(),
                    out.deep_view() == start + components_lines(self@.components, i as nat),
                decreases self.components.len() - i,
            {
                push_component(&mut out, &self.components[i]);
                i += 1;
            }
        }
        assert(out.deep_view() =~= head + components_section(self@.components));
        let ghost head = out.deep_view();
        match &self.file_structure {
            Some(root) => {
                push_heading(&mut out, "", "## File Structure");
                push_line(&mut out, "", "```", "");
                push_tree(&mut out, root, "");
                push_line(&mut out, "", "```", "");
            },
            None => {},
        }
        assert(out.deep_view() =~= head + structure_lines(self@.file_structure));
        let ghost head = out.deep_view();
        if self.design_decisions.len() > 0 {
            push_heading(&mut out, "", "## Design Decisions");
            let ghost start = out.deep_view();
            let ghost decisions = self@.design_decisions;
            let mut i: usize = 0;
            while i < self.design_decisions.len()
                invariant
                    i <= self.design_decisions.len(),
                    decisions == self.design_decisions.deep_view(),
                    out.deep_view() == start + decision_lines(decisions, i as nat),
                decreases self.design_decisions.len() - i,
            {
                proof {
                    reveal_strlit("");
                    assert("- "@ + self.design_decisions[i as int]@ + ""@ =~= "- "@
                        + self.design_decisions[i as int]@);
                }
                push_line(&mut out, "- ", self.design_decisions[i].as_str(), "");
                i += 1;
            }
        }
        assert(out.deep_view() =~= head + decisions_section(self@.design_decisions));
        let ghost head = out.deep_view();
        push_line(&mut out, "", "", "");
        push_line(&mut out, "", "---", "");
        push_line(&mut out, "Version: ", self.version.as_str(), "");
        assert(out.deep_view() =~= head + seq![
            Seq::empty(),
            "---"@,
            "Version: "@ + self@.version,
        ]);
        push_time(&mut out, "Created: ", &self.created_at);
        push_time(&mut out, "Updated: ", &self.updated_at);
        join_with_newlines(&out)
    }
}

} // verus!
