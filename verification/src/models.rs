//! The data model: verbosity levels, the design document and the task list.

use vstd::prelude::*;

verus! {

/// How much progress output is shown.
///
/// The levels are ordered: each level shows everything the one before it
/// shows, and more.
#[derive(Clone, Copy, Debug, PartialEq, Eq, Structural)]
pub enum DebugLevel {
    /// Only errors and the final status.
    Minimal,
    /// Human-readable progress.
    Normal,
    /// Progress, tool calls and responses.
    Verbose,
    /// Everything, internal state included.
    Debug,
}

impl DebugLevel {
    /// The position of the level in the order from quietest to loudest.
    pub open spec fn rank(self) -> nat {
        match self {
            DebugLevel::Minimal => 0,
            DebugLevel::Normal => 1,
            DebugLevel::Verbose => 2,
            DebugLevel::Debug => 3,
        }
    }

    /// Whether this is the quietest level.
    pub fn is_minimal(&self) -> (b: bool)
        ensures
            b == (*self == DebugLevel::Minimal),
            b == (self.rank() == 0),
    {
        matches!(self, DebugLevel::Minimal)
    }

    /// Whether progress output is shown: at `Normal` and above.
    pub fn is_normal(&self) -> (b: bool)
        ensures
            b == (self.rank() >= 1),
    {
        !matches!(self, DebugLevel::Minimal)
    }

    /// Whether tool calls and responses are shown: at `Verbose` and above.
    pub fn is_verbose(&self) -> (b: bool)
        ensures
            b == (self.rank() >= 2),
    {
        matches!(self, DebugLevel::Verbose | DebugLevel::Debug)
    }

    /// Whether internal state is shown: at `Debug` only.
    pub fn is_debug(&self) -> (b: bool)
        ensures
            b == (*self == DebugLevel::Debug),
            b == (self.rank() == 3),
    {
        matches!(self, DebugLevel::Debug)
    }
}

/// Where a task stands. A task starts as `Pending`; whoever executes the
/// tasks moves it on.
#[derive(Clone, Copy, Debug, PartialEq, Eq, Structural)]
pub enum TaskStatus {
    Pending,
    InProgress,
    Completed,
    Failed,
    Blocked,
}

/// How much work a task is expected to be.
#[derive(Clone, Copy, Debug, PartialEq, Eq, Structural)]
pub enum TaskComplexity {
    Low,
    Medium,
    High,
}

/// A unit of work.
#[derive(Clone, Debug, PartialEq, Eq)]
pub struct Task {
    /// Identifier; expected to be unique in a list, which is not enforced.
    pub id: String,
    pub title: String,
    pub description: String,
    /// Nominally 1 to 5; a lower number is more urgent.
    pub priority: u32,
    pub status: TaskStatus,
    /// Identifiers of the tasks that this one waits for.
    pub dependencies: Vec<String>,
    pub user_story_id: Option<String>,
    pub estimated_complexity: TaskComplexity,
    /// Files the task is expected to create.
    pub files_created: Vec<String>,
    /// Files the task is expected to modify.
    pub files_modified: Vec<String>,
    /// Set once the work has been committed.
    pub commit_hash: Option<String>,
    /// How often the task has been attempted.
    pub attempts: u32,
    /// The acceptance criteria, one per line.
    pub notes: String,
}

/// What a `Task` holds.
pub struct TaskModel {
    pub id: Seq<char>,
    pub title: Seq<char>,
    pub description: Seq<char>,
    pub priority: u32,
    pub status: TaskStatus,
    pub dependencies: Seq<Seq<char>>,
    pub user_story_id: Option<Seq<char>>,
    pub estimated_complexity: TaskComplexity,
    pub files_created: Seq<Seq<char>>,
    pub files_modified: Seq<Seq<char>>,
    pub commit_hash: Option<Seq<char>>,
    pub attempts: u32,
    pub notes: Seq<char>,
}

impl View for Task {
    type V = TaskModel;

    open spec fn view(&self) -> TaskModel {
        TaskModel {
            id: self.id@,
            title: self.title@,
            description: self.description@,
            priority: self.priority,
            status: self.status,
            dependencies: self.dependencies.deep_view(),
            user_story_id: self.user_story_id.deep_view(),
            estimated_complexity: self.estimated_complexity,
            files_created: self.files_created.deep_view(),
            files_modified: self.files_modified.deep_view(),
            commit_hash: self.commit_hash.deep_view(),
            attempts: self.attempts,
            notes: self.notes@,
        }
    }
}

impl DeepView for Task {
    type V = TaskModel;

    open spec fn deep_view(&self) -> TaskModel {
        self@
    }
}

/// The tasks of one project, in order.
#[derive(Clone, Debug, PartialEq, Eq)]
pub struct TaskList {
    pub project: String,
    pub language: String,
    /// Names of phases; kept for grouping, never filled when a list is
    /// built from a raw record.
    pub phases: Vec<String>,
    pub tasks: Vec<Task>,
    pub version: String,
    pub created_at: Option<String>,
    pub updated_at: Option<String>,
}

/// What a `TaskList` holds.
pub struct TaskListModel {
    pub project: Seq<char>,
    pub language: Seq<char>,
    pub phases: Seq<Seq<char>>,
    pub tasks: Seq<TaskModel>,
    pub version: Seq<char>,
    pub created_at: Option<Seq<char>>,
    pub updated_at: Option<Seq<char>>,
}

impl View for TaskList {
    type V = TaskListModel;

    open spec fn view(&self) -> TaskListModel {
        TaskListModel {
            project: self.project@,
            language: self.language@,
            phases: self.phases.deep_view(),
            tasks: self.tasks.deep_view(),
            version: self.version@,
            created_at: self.created_at.deep_view(),
            updated_at: self.updated_at.deep_view(),
        }
    }
}

impl DeepView for TaskList {
    type V = TaskListModel;

    open spec fn deep_view(&self) -> TaskListModel {
        self@
    }
}

/// One architectural unit of a design.
#[derive(Clone, Debug, PartialEq, Eq)]
pub struct Component {
    pub name: String,
    pub purpose: String,
    pub file_path: Option<String>,
    /// Hints at the interface, such as notable entry points.
    pub interface: Vec<String>,
    /// Names of other components; they need not exist.
    pub dependencies: Vec<String>,
}

/// What a `Component` holds.
pub struct ComponentModel {
    pub name: Seq<char>,
    pub purpose: Seq<char>,
    pub file_path: Option<Seq<char>>,
    pub interface: Seq<Seq<char>>,
    pub dependencies: Seq<Seq<char>>,
}

impl View for Component {
    type V = ComponentModel;

    open spec fn view(&self) -> ComponentModel {
        ComponentModel {
            name: self.name@,
            purpose: self.purpose@,
            file_path: self.file_path.deep_view(),
            interface: self.interface.deep_view(),
            dependencies: self.dependencies.deep_view(),
        }
    }
}

impl DeepView for Component {
    type V = ComponentModel;

    open spec fn deep_view(&self) -> ComponentModel {
        self@
    }
}

/// The technology choices of a design.
#[derive(Clone, Debug, PartialEq, Eq)]
pub struct TechnologyStack {
    pub language: String,
    pub testing_framework: String,
    pub build_tool: String,
    pub dependencies: Vec<String>,
    /// Further choices by name, in the order they were added.
    pub additional: Vec<(String, String)>,
}

/// What a `TechnologyStack` holds.
pub struct TechnologyStackModel {
    pub language: Seq<char>,
    pub testing_framework: Seq<char>,
    pub build_tool: Seq<char>,
    pub dependencies: Seq<Seq<char>>,
    pub additional: Seq<(Seq<char>, Seq<char>)>,
}

impl View for TechnologyStack {
    type V = TechnologyStackModel;

    open spec fn view(&self) -> TechnologyStackModel {
        TechnologyStackModel {
            language: self.language@,
            testing_framework: self.testing_framework@,
            build_tool: self.build_tool@,
            dependencies: self.dependencies.deep_view(),
            additional: self.additional.deep_view(),
        }
    }
}

impl DeepView for TechnologyStack {
    type V = TechnologyStackModel;

    open spec fn deep_view(&self) -> TechnologyStackModel {
        self@
    }
}

/// One entry of a project tree: a directory with its children, or a file.
/// Children stand in the order in which they were added.
#[derive(Debug, PartialEq, Eq)]
pub struct FileStructure {
    /// One path segment.
    pub name: String,
    pub is_directory: bool,
    pub description: String,
    pub children: Vec<FileStructure>,
}

/// What a `FileStructure` holds.
pub struct FileNode {
    pub name: Seq<char>,
    pub is_directory: bool,
    pub description: Seq<char>,
    pub children: Seq<FileNode>,
}

/// Whether `name` can be one segment of a path: it is not empty and holds
/// no slash.
pub open spec fn is_segment(name: Seq<char>) -> bool {
    name.len() > 0 && forall|i: int| 0 <= i < name.len() ==> name[i] != '/'
}

impl FileNode {
    /// A node without children.
    pub open spec fn leaf(name: Seq<char>, is_directory: bool, description: Seq<char>) -> FileNode {
        FileNode { name, is_directory, description, children: Seq::empty() }
    }

    /// The invariant of a tree below its root: no two children of one node
    /// share a name, and each name is one path segment.
    pub open spec fn well_formed(self) -> bool
        decreases self,
    {
        &&& forall|i: int, j: int|
            0 <= i < j < self.children.len() ==> self.children[i].name != self.children[j].name
        &&& forall|i: int|
            0 <= i < self.children.len() ==> is_segment((#[trigger] self.children[i]).name)
                && self.children[i].well_formed()
    }
}

impl View for FileStructure {
    type V = FileNode;

    open spec fn view(&self) -> FileNode
        decreases self,
    {
        FileNode {
            name: self.name@,
            is_directory: self.is_directory,
            description: self.description@,
            children: Seq::new(
                self.children.len() as nat,
                |i: int|
                    if 0 <= i < self.children.len() {
                        self.children[i]@
                    } else {
                        FileNode::leaf(Seq::empty(), false, Seq::empty())
                    },
            ),
        }
    }
}

impl DeepView for FileStructure {
    type V = FileNode;

    open spec fn deep_view(&self) -> FileNode {
        self@
    }
}

impl Clone for FileStructure {
    fn clone(&self) -> (copy: Self)
        ensures
            copy@ == self@,
    {
        self.duplicate()
    }
}

impl FileStructure {
    /// A copy of the node and of everything below it.
    pub fn duplicate(&self) -> (copy: FileStructure)
        ensures
            copy@ == self@,
        decreases self,
    {
        let mut children: Vec<FileStructure> = Vec::new();
        let mut i: usize = 0;
        while i < self.children.len()
            invariant
                i <= self.children.len(),
                children.len() == i,
                forall|k: int| 0 <= k < i ==> (#[trigger] children[k])@ == self.children[k]@,
            decreases self.children.len() - i,
        {
            children.push(self.children[i].duplicate());
            i += 1;
        }
        let copy = FileStructure {
            name: self.name.clone(),
            is_directory: self.is_directory,
            description: self.description.clone(),
            children,
        };
        assert(copy@.children =~= self@.children);
        copy
    }

    /// A directory without children.
    pub fn directory(name: &str, description: &str) -> (node: FileStructure)
        ensures
            node@ == FileNode::leaf(name@, true, description@),
            node@.well_formed(),
    {
        let node = FileStructure {
            name: name.to_owned(),
            is_directory: true,
            description: description.to_owned(),
            children: Vec::new(),
        };
        assert(node@.children =~= Seq::empty());
        node
    }

    /// A file.
    pub fn file(name: &str, description: &str) -> (node: FileStructure)
        ensures
            node@ == FileNode::leaf(name@, false, description@),
            node@.well_formed(),
    {
        let node = FileStructure {
            name: name.to_owned(),
            is_directory: false,
            description: description.to_owned(),
            children: Vec::new(),
        };
        assert(node@.children =~= Seq::empty());
        node
    }
}

/// The design of a project.
#[derive(Clone, Debug, PartialEq, Eq)]
pub struct DesignDocument {
    pub project: String,
    pub overview: String,
    /// A diagram of the components, as text.
    pub component_diagram: Option<String>,
    pub components: Vec<Component>,
    /// The project tree; its root is the project itself.
    pub file_structure: Option<FileStructure>,
    pub technology_stack: Option<TechnologyStack>,
    /// One statement per decision.
    pub design_decisions: Vec<String>,
    pub version: String,
    pub created_at: Option<String>,
    pub updated_at: Option<String>,
}

/// What a `DesignDocument` holds.
pub struct DesignModel {
    pub project: Seq<char>,
    pub overview: Seq<char>,
    pub component_diagram: Option<Seq<char>>,
    pub components: Seq<ComponentModel>,
    pub file_structure: Option<FileNode>,
    pub technology_stack: Option<TechnologyStackModel>,
    pub design_decisions: Seq<Seq<char>>,
    pub version: Seq<char>,
    pub created_at: Option<Seq<char>>,
    pub updated_at: Option<Seq<char>>,
}

impl View for DesignDocument {
    type V = DesignModel;

    open spec fn view(&self) -> DesignModel {
        DesignModel {
            project: self.project@,
            overview: self.overview@,
            component_diagram: self.component_diagram.deep_view(),
            components: self.components.deep_view(),
            file_structure: self.file_structure.deep_view(),
            technology_stack: self.technology_stack.deep_view(),
            design_decisions: self.design_decisions.deep_view(),
            version: self.version@,
            created_at: self.created_at.deep_view(),
            updated_at: self.updated_at.deep_view(),
        }
    }
}

impl DeepView for DesignDocument {
    type V = DesignModel;

    open spec fn deep_view(&self) -> DesignModel {
        self@
    }
}

} // verus!
