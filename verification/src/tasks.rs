//! Building a task list from a raw record.

use vstd::prelude::*;
use crate::clock::current_timestamp;
use crate::design::{default_language, schema_version};
use crate::errors::RalphError;
use crate::models::{Task, TaskComplexity, TaskList, TaskListModel, TaskModel, TaskStatus};
use crate::raw::{items_of, member, model_of, owned_text, string_list, text_of, text_or, RawModel, RawValue};
use crate::text::{join_lines, join_with_newlines, same_text};

verus! {

/// The identifier of a task whose entry gives none.
pub open spec fn default_task_id() -> Seq<char> {
    "TASK-000"@
}

/// The priority of a task whose entry gives none.
pub open spec fn default_priority() -> u32 {
    3
}

/// The message for a task record of the wrong shape.
pub open spec fn not_a_task_record() -> Seq<char> {
    "the task record is not an object"@
}

/// The complexity that a raw value names: `low` and `high` are themselves,
/// everything else is `Medium`.
pub open spec fn complexity_spec(value: RawModel) -> TaskComplexity {
    match value {
        RawModel::Text(s) => if s == "low"@ {
            TaskComplexity::Low
        } else if s == "high"@ {
            TaskComplexity::High
        } else {
            TaskComplexity::Medium
        },
        _ => TaskComplexity::Medium,
    }
}

/// The priority that a raw value gives: a whole number in the signed 64-bit
/// range, cut to 32 bits; 3 for everything else.
pub open spec fn priority_spec(value: RawModel) -> u32 {
    match value.as_i64() {
        Some(n) => n as u32,
        None => default_priority(),
    }
}

/// The task that a raw entry describes. The status is `Pending`, no attempt
/// has been made and nothing is committed, whatever the entry says.
pub open spec fn task_spec(entry: RawModel) -> TaskModel {
    TaskModel {
        id: entry.field("id"@).text_or(default_task_id()),
        title: entry.field("title"@).text_or(""@),
        description: entry.field("description"@).text_or(""@),
        priority: priority_spec(entry.field("priority"@)),
        status: TaskStatus::Pending,
        dependencies: entry.field("dependencies"@).string_list(),
        user_story_id: entry.field("user_story_id"@).as_text(),
        estimated_complexity: complexity_spec(entry.field("estimated_complexity"@)),
        files_created: entry.field("files_to_create"@).string_list(),
        files_modified: entry.field("files_to_modify"@).string_list(),
        commit_hash: None,
        attempts: 0,
        notes: join_lines(entry.field("acceptance_criteria"@).string_list()),
    }
}

/// The tasks that a raw value lists: one for each item of a list, in order;
/// none for anything else.
pub open spec fn tasks_spec(value: RawModel) -> Seq<TaskModel> {
    match value {
        RawModel::Array(items) => Seq::new(items.len(), |i: int| task_spec(items[i])),
        _ => Seq::empty(),
    }
}

/// The task list for a record and a project, created at the given time.
pub open spec fn task_list_spec(
    json: RawModel,
    project: Seq<char>,
    created_at: Seq<char>,
) -> TaskListModel {
    TaskListModel {
        project,
        language: json.field("design"@).field("language"@).text_or(default_language()),
        phases: Seq::empty(),
        tasks: tasks_spec(json.field("tasks"@)),
        version: schema_version(),
        created_at: Some(created_at),
        updated_at: None,
    }
}

/// Reads the complexity of a task.
fn complexity_from(value: Option<&RawValue>) -> (c: TaskComplexity)
    ensures
        c == complexity_spec(model_of(value)),
{
    match text_of(value) {
        Some(s) => if same_text(s, "low") {
            TaskComplexity::Low
        } else if same_text(s, "high") {
            TaskComplexity::High
        } else {
            TaskComplexity::Medium
        },
        None => TaskComplexity::Medium,
    }
}

/// Reads the priority of a task.
fn priority_from(value: Option<&RawValue>) -> (p: u32)
    ensures
        p == priority_spec(model_of(value)),
{
    let number = match value {
        Some(v) => v.as_i64(),
        None => None,
    };
    match number {
        Some(n) => {
            #[verifier::truncate]
            (n as u32)
        },
        None => 3,
    }
}

/// Builds the task for one raw entry. Whatever the entry holds, a task comes
/// out: what is missing or of the wrong type has its default.
pub fn task_from_entry(entry: &RawValue) -> (task: Task)
    ensures
        task@ == task_spec(entry@),
        task.status == TaskStatus::Pending,
        task.attempts == 0,
        task.commit_hash is None,
{
    let criteria = string_list(entry.get("acceptance_criteria"));
    Task {
        id: text_or(entry.get("id"), "TASK-000"),
        title: text_or(entry.get("title"), ""),
        description: text_or(entry.get("description"), ""),
        priority: priority_from(entry.get("priority")),
        status: TaskStatus::Pending,
        dependencies: string_list(entry.get("dependencies")),
        user_story_id: owned_text(entry.get("user_story_id")),
        estimated_complexity: complexity_from(entry.get("estimated_complexity")),
        files_created: string_list(entry.get("files_to_create")),
        files_modified: string_list(entry.get("files_to_modify")),
        commit_hash: None,
        attempts: 0,
        notes: join_with_newlines(&criteria),
    }
}

/// Reads the list of tasks.
fn tasks_from(value: Option<&RawValue>) -> (out: Vec<Task>)
    ensures
        out.deep_view() == tasks_spec(model_of(value)),
{
    let mut out: Vec<Task> = Vec::new();
    match items_of(value) {
        Some(items) => {
            let mut i: usize = 0;
            while i < items.len()
                invariant
                    i <= items.len(),
                    out.len() == i,
                    forall|k: int| 0 <= k < i ==> (#[trigger] out[k])@ == task_spec(items[k]@),
                decreases items.len() - i,
            {
                out.push(task_from_entry(&items[i]));
                i += 1;
            }
        },
        None => {},
    }
    out
}

/// Builds the task list for a record, with the given time of creation.
///
/// The record is an object with the list `tasks`; the language is taken
/// from its member `design`. The absent value is read as an object without
/// members, any other value is refused. No entry of the list can make the
/// building fail, and no check is made that identifiers are unique or that
/// dependencies exist.
pub fn task_list_from_record(json: &RawValue, project: &str, created_at: String) -> (r: Result<
    TaskList,
    RalphError,
>)
    ensures
        r is Ok <==> json@.is_record(),
        r matches Ok(list) ==> list@ == task_list_spec(json@, project@, created_at@),
        r matches Err(e) ==> e matches RalphError::InputShape(m) && m@ == not_a_task_record(),
{
    if !json.is_object() && !json.is_null() {
        return Err(RalphError::InputShape("the task record is not an object".to_owned()));
    }
    let tasks = tasks_from(json.get("tasks"));
    let language = text_or(member(json.get("design"), "language"), "rust");
    let phases: Vec<String> = Vec::new();
    assert(phases.deep_view() =~= Seq::empty());
    Ok(
        TaskList {
            project: project.to_owned(),
            language,
            phases,
            tasks,
            version: "1.0".to_owned(),
            created_at: Some(created_at),
            updated_at: None,
        },
    )
}

/// Builds the task list for a record and stamps it with the current time.
/// But for the stamp the list is what `task_list_spec` gives.
pub fn json_to_task_list(json: &RawValue, project: &str) -> (r: Result<TaskList, RalphError>)
    ensures
        r is Ok <==> json@.is_record(),
        r matches Ok(list) ==> list@.created_at is Some && list@ == task_list_spec(
            json@,
            project@,
            list@.created_at->0,
        ),
        r matches Err(e) ==> e matches RalphError::InputShape(m) && m@ == not_a_task_record(),
{
    task_list_from_record(json, project, current_timestamp())
}

/// Every task starts as `Pending`, with no attempt made and nothing
/// committed, whatever its entry holds: a status in the entry is not read.
pub proof fn lemma_status_is_pending(entry: RawModel)
    ensures
        task_spec(entry).status == TaskStatus::Pending,
        task_spec(entry).attempts == 0,
        task_spec(entry).commit_hash is None,
{
}

/// Every task of a list that is built starts as `Pending`.
pub proof fn lemma_all_tasks_pending(json: RawModel, project: Seq<char>, created_at: Seq<char>)
    ensures
        forall|i: int|
            0 <= i < task_list_spec(json, project, created_at).tasks.len() ==> (
            #[trigger] task_list_spec(json, project, created_at).tasks[i]).status
                == TaskStatus::Pending,
{
}

/// The list holds one task for each item of `tasks`, in the order of the
/// items.
pub proof fn lemma_tasks_keep_order(json: RawModel, project: Seq<char>, created_at: Seq<char>)
    requires
        json.field("tasks"@) is Array,
    ensures
        task_list_spec(json, project, created_at).tasks.len() == json.field(
            "tasks"@,
        )->Array_0.len(),
        forall|i: int|
            0 <= i < json.field("tasks"@)->Array_0.len() ==> (#[trigger] task_list_spec(
                json,
                project,
                created_at,
            ).tasks[i]) == task_spec(json.field("tasks"@)->Array_0[i]),
{
}

/// An entry that holds nothing but an `id` gives a task with every default:
/// pending, of medium complexity, with priority 3, no attempts, no commit,
/// and every list and text empty.
pub proof fn lemma_defaults_are_complete(entry: RawModel)
    requires
        forall|key: Seq<char>| key != "id"@ ==> !entry.has_field(key),
    ensures
        task_spec(entry).id == entry.field("id"@).text_or(default_task_id()),
        task_spec(entry).title.len() == 0,
        task_spec(entry).description.len() == 0,
        task_spec(entry).priority == 3,
        task_spec(entry).status == TaskStatus::Pending,
        task_spec(entry).dependencies.len() == 0,
        task_spec(entry).user_story_id is None,
        task_spec(entry).estimated_complexity == TaskComplexity::Medium,
        task_spec(entry).files_created.len() == 0,
        task_spec(entry).files_modified.len() == 0,
        task_spec(entry).commit_hash is None,
        task_spec(entry).attempts == 0,
        task_spec(entry).notes.len() == 0,
{
    reveal_strlit("id");
    reveal_strlit("");
    reveal_strlit("title");
    reveal_strlit("description");
    reveal_strlit("priority");
    reveal_strlit("dependencies");
    reveal_strlit("user_story_id");
    reveal_strlit("estimated_complexity");
    reveal_strlit("files_to_create");
    reveal_strlit("files_to_modify");
    reveal_strlit("acceptance_criteria");
    assert("title"@.len() != "id"@.len());
    assert(!entry.has_field("title"@));
    assert(!entry.has_field("description"@));
    assert(!entry.has_field("priority"@));
    assert(!entry.has_field("dependencies"@));
    assert(!entry.has_field("user_story_id"@));
    assert(!entry.has_field("estimated_complexity"@));
    assert(!entry.has_field("files_to_create"@));
    assert(!entry.has_field("files_to_modify"@));
    assert(!entry.has_field("acceptance_criteria"@));
}

} // verus!
