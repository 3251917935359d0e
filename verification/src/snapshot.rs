//! The persisted form of a task list: a structured snapshot that can be
//! written as JSON text and read back without loss.

use vstd::prelude::*;
use crate::errors::RalphError;
use crate::json::{parse_json, parsed_json, render_json, rendered_json};
use crate::models::{Task, TaskComplexity, TaskList, TaskListModel, TaskModel, TaskStatus};
use crate::raw::{find_member, items_of, model_of, owned_text, RawMember, RawModel, RawValue};
use crate::text::same_text;

verus! {

/// The member `name` with the value `value`.
pub open spec fn named(name: Seq<char>, value: RawModel) -> RawMember {
    RawMember { name, value }
}

/// An optional text as a value: nothing is `Null`.
pub open spec fn optional_text_value(text: Option<Seq<char>>) -> RawModel {
    match text {
        Some(s) => RawModel::Text(s),
        None => RawModel::Null,
    }
}

/// A list of texts as a value.
pub open spec fn texts_value(items: Seq<Seq<char>>) -> RawModel {
    RawModel::Array(Seq::new(items.len(), |i: int| RawModel::Text(items[i])))
}

/// The name under which a status is stored.
pub open spec fn status_name(status: TaskStatus) -> Seq<char> {
    match status {
        TaskStatus::Pending => "pending"@,
        TaskStatus::InProgress => "in_progress"@,
        TaskStatus::Completed => "completed"@,
        TaskStatus::Failed => "failed"@,
        TaskStatus::Blocked => "blocked"@,
    }
}

/// The name under which a complexity is stored.
pub open spec fn complexity_name(complexity: TaskComplexity) -> Seq<char> {
    match complexity {
        TaskComplexity::Low => "low"@,
        TaskComplexity::Medium => "medium"@,
        TaskComplexity::High => "high"@,
    }
}

/// The snapshot of one task: an object with one member for each field.
pub open spec fn task_snapshot(task: TaskModel) -> RawModel {
    RawModel::Object(
        seq![
            named("id"@, RawModel::Text(task.id)),
            named("title"@, RawModel::Text(task.title)),
            named("description"@, RawModel::Text(task.description)),
            named("priority"@, RawModel::Int(task.priority as int)),
            named("status"@, RawModel::Text(status_name(task.status))),
            named("dependencies"@, texts_value(task.dependencies)),
            named("user_story_id"@, optional_text_value(task.user_story_id)),
            named("estimated_complexity"@, RawModel::Text(complexity_name(task.estimated_complexity))),
            named("files_created"@, texts_value(task.files_created)),
            named("files_modified"@, texts_value(task.files_modified)),
            named("commit_hash"@, optional_text_value(task.commit_hash)),
            named("attempts"@, RawModel::Int(task.attempts as int)),
            named("notes"@, RawModel::Text(task.notes)),
        ],
    )
}

/// The snapshots of the tasks, in their order.
pub open spec fn tasks_value(tasks: Seq<TaskModel>) -> RawModel {
    RawModel::Array(Seq::new(tasks.len(), |i: int| task_snapshot(tasks[i])))
}

/// The snapshot of a task list.
pub open spec fn task_list_snapshot(list: TaskListModel) -> RawModel {
    RawModel::Object(
        seq![
            named("project"@, RawModel::Text(list.project)),
            named("language"@, RawModel::Text(list.language)),
            named("phases"@, texts_value(list.phases)),
            named("tasks"@, tasks_value(list.tasks)),
            named("version"@, RawModel::Text(list.version)),
            named("created_at"@, optional_text_value(list.created_at)),
            named("updated_at"@, optional_text_value(list.updated_at)),
        ],
    )
}

/// An optional text read back: `Null` is nothing, a text is itself, and
/// nothing else is accepted.
pub open spec fn read_optional_text(value: RawModel) -> Option<Option<Seq<char>>> {
    match value {
        RawModel::Null => Some(None),
        RawModel::Text(s) => Some(Some(s)),
        _ => None,
    }
}

/// A list of texts read back: a list whose items are all texts.
pub open spec fn read_texts(value: RawModel) -> Option<Seq<Seq<char>>> {
    match value {
        RawModel::Array(items) => if forall|i: int| 0 <= i < items.len() ==> items[i] is Text {
            Some(Seq::new(items.len(), |i: int| items[i]->Text_0))
        } else {
            None
        },
        _ => None,
    }
}

/// A 32-bit number read back: a whole number in that range.
pub open spec fn read_u32(value: RawModel) -> Option<u32> {
    match value {
        RawModel::Int(n) => if 0 <= n <= u32::MAX {
            Some(n as u32)
        } else {
            None
        },
        _ => None,
    }
}

/// The status that a name stands for.
pub open spec fn status_named(name: Seq<char>) -> Option<TaskStatus> {
    if name == "pending"@ {
        Some(TaskStatus::Pending)
    } else if name == "in_progress"@ {
        Some(TaskStatus::InProgress)
    } else if name == "completed"@ {
        Some(TaskStatus::Completed)
    } else if name == "failed"@ {
        Some(TaskStatus::Failed)
    } else if name == "blocked"@ {
        Some(TaskStatus::Blocked)
    } else {
        None
    }
}

/// The complexity that a name stands for.
pub open spec fn complexity_named(name: Seq<char>) -> Option<TaskComplexity> {
    if name == "low"@ {
        Some(TaskComplexity::Low)
    } else if name == "medium"@ {
        Some(TaskComplexity::Medium)
    } else if name == "high"@ {
        Some(TaskComplexity::High)
    } else {
        None
    }
}

/// A status read back.
pub open spec fn read_status(value: RawModel) -> Option<TaskStatus> {
    match value {
        RawModel::Text(name) => status_named(name),
        _ => None,
    }
}

/// A complexity read back.
pub open spec fn read_complexity(value: RawModel) -> Option<TaskComplexity> {
    match value {
        RawModel::Text(name) => complexity_named(name),
        _ => None,
    }
}

/// Whether a value is the snapshot of a task: each member is there and of
/// its type; the two optional texts may be `Null` or missing.
pub open spec fn is_task_snapshot(json: RawModel) -> bool {
    &&& json is Object
    &&& json.field("id"@) is Text
    &&& json.field("title"@) is Text
    &&& json.field("description"@) is Text
    &&& read_u32(json.field("priority"@)) is Some
    &&& read_status(json.field("status"@)) is Some
    &&& read_texts(json.field("dependencies"@)) is Some
    &&& read_optional_text(json.field("user_story_id"@)) is Some
    &&& read_complexity(json.field("estimated_complexity"@)) is Some
    &&& read_texts(json.field("files_created"@)) is Some
    &&& read_texts(json.field("files_modified"@)) is Some
    &&& read_optional_text(json.field("commit_hash"@)) is Some
    &&& read_u32(json.field("attempts"@)) is Some
    &&& json.field("notes"@) is Text
}

/// The task that a snapshot holds.
pub open spec fn task_from_snapshot(json: RawModel) -> Option<TaskModel> {
    if is_task_snapshot(json) {
        Some(
            TaskModel {
                id: json.field("id"@)->Text_0,
                title: json.field("title"@)->Text_0,
                description: json.field("description"@)->Text_0,
                priority: read_u32(json.field("priority"@))->0,
                status: read_status(json.field("status"@))->0,
                dependencies: read_texts(json.field("dependencies"@))->0,
                user_story_id: read_optional_text(json.field("user_story_id"@))->0,
                estimated_complexity: read_complexity(json.field("estimated_complexity"@))->0,
                files_created: read_texts(json.field("files_created"@))->0,
                files_modified: read_texts(json.field("files_modified"@))->0,
                commit_hash: read_optional_text(json.field("commit_hash"@))->0,
                attempts: read_u32(json.field("attempts"@))->0,
                notes: json.field("notes"@)->Text_0,
            },
        )
    } else {
        None
    }
}

/// The tasks that a value lists: a list whose items are all snapshots of
/// tasks.
pub open spec fn read_tasks(value: RawModel) -> Option<Seq<TaskModel>> {
    match value {
        RawModel::Array(items) => if forall|i: int|
            0 <= i < items.len() ==> is_task_snapshot(#[trigger] items[i]) {
            Some(Seq::new(items.len(), |i: int| task_from_snapshot(items[i])->0))
        } else {
            None
        },
        _ => None,
    }
}

/// Whether a value is the snapshot of a task list.
pub open spec fn is_task_list_snapshot(json: RawModel) -> bool {
    &&& json is Object
    &&& json.field("project"@) is Text
    &&& json.field("language"@) is Text
    &&& read_texts(json.field("phases"@)) is Some
    &&& read_tasks(json.field("tasks"@)) is Some
    &&& json.field("version"@) is Text
    &&& read_optional_text(json.field("created_at"@)) is Some
    &&& read_optional_text(json.field("updated_at"@)) is Some
}

/// The task list that a snapshot holds.
pub open spec fn task_list_from_snapshot(json: RawModel) -> Option<TaskListModel> {
    if is_task_list_snapshot(json) {
        Some(
            TaskListModel {
                project: json.field("project"@)->Text_0,
                language: json.field("language"@)->Text_0,
                phases: read_texts(json.field("phases"@))->0,
                tasks: read_tasks(json.field("tasks"@))->0,
                version: json.field("version"@)->Text_0,
                created_at: read_optional_text(json.field("created_at"@))->0,
                updated_at: read_optional_text(json.field("updated_at"@))->0,
            },
        )
    } else {
        None
    }
}

/// The length and the first character of each name in the snapshot of a task.
proof fn lemma_task_keys()
    ensures
        "id"@.len() == 2 && "id"@[0] == 'i',
        "title"@.len() == 5 && "title"@[0] == 't',
        "description"@.len() == 11 && "description"@[0] == 'd',
        "priority"@.len() == 8 && "priority"@[0] == 'p',
        "status"@.len() == 6 && "status"@[0] == 's',
        "dependencies"@.len() == 12 && "dependencies"@[0] == 'd',
        "user_story_id"@.len() == 13 && "user_story_id"@[0] == 'u',
        "estimated_complexity"@.len() == 20 && "estimated_complexity"@[0] == 'e',
        "files_created"@.len() == 13 && "files_created"@[0] == 'f',
        "files_modified"@.len() == 14 && "files_modified"@[0] == 'f',
        "commit_hash"@.len() == 11 && "commit_hash"@[0] == 'c',
        "attempts"@.len() == 8 && "attempts"@[0] == 'a',
        "notes"@.len() == 5 && "notes"@[0] == 'n',
{
    reveal_strlit("id");
    reveal_strlit("title");
    reveal_strlit("description");
    reveal_strlit("priority");
    reveal_strlit("status");
    reveal_strlit("dependencies");
    reveal_strlit("user_story_id");
    reveal_strlit("estimated_complexity");
    reveal_strlit("files_created");
    reveal_strlit("files_modified");
    reveal_strlit("commit_hash");
    reveal_strlit("attempts");
    reveal_strlit("notes");
}

/// The length and the first character of each name in the snapshot of a task
/// list.
proof fn lemma_task_list_keys()
    ensures
        "project"@.len() == 7 && "project"@[0] == 'p',
        "language"@.len() == 8 && "language"@[0] == 'l',
        "phases"@.len() == 6 && "phases"@[0] == 'p',
        "tasks"@.len() == 5 && "tasks"@[0] == 't',
        "version"@.len() == 7 && "version"@[0] == 'v',
        "created_at"@.len() == 10 && "created_at"@[0] == 'c',
        "updated_at"@.len() == 10 && "updated_at"@[0] == 'u',
{
    reveal_strlit("project");
    reveal_strlit("language");
    reveal_strlit("phases");
    reveal_strlit("tasks");
    reveal_strlit("version");
    reveal_strlit("created_at");
    reveal_strlit("updated_at");
}

/// The length and the first character of each stored name of a status or a
/// complexity.
proof fn lemma_stored_names()
    ensures
        "pending"@.len() == 7 && "pending"@[0] == 'p',
        "in_progress"@.len() == 11 && "in_progress"@[0] == 'i',
        "completed"@.len() == 9 && "completed"@[0] == 'c',
        "failed"@.len() == 6 && "failed"@[0] == 'f',
        "blocked"@.len() == 7 && "blocked"@[0] == 'b',
        "low"@.len() == 3 && "low"@[0] == 'l',
        "medium"@.len() == 6 && "medium"@[0] == 'm',
        "high"@.len() == 4 && "high"@[0] == 'h',
{
    reveal_strlit("pending");
    reveal_strlit("in_progress");
    reveal_strlit("completed");
    reveal_strlit("failed");
    reveal_strlit("blocked");
    reveal_strlit("low");
    reveal_strlit("medium");
    reveal_strlit("high");
}

/// Each member of the snapshot of a task is found under its name.
pub proof fn lemma_task_snapshot_fields(task: TaskModel)
    ensures
        task_snapshot(task).field("id"@) == RawModel::Text(task.id),
        task_snapshot(task).field("title"@) == RawModel::Text(task.title),
        task_snapshot(task).field("description"@) == RawModel::Text(task.description),
        task_snapshot(task).field("priority"@) == RawModel::Int(task.priority as int),
        task_snapshot(task).field("status"@) == RawModel::Text(status_name(task.status)),
        task_snapshot(task).field("dependencies"@) == texts_value(task.dependencies),
        task_snapshot(task).field("user_story_id"@) == optional_text_value(task.user_story_id),
        task_snapshot(task).field("estimated_complexity"@) == RawModel::Text(
            complexity_name(task.estimated_complexity),
        ),
        task_snapshot(task).field("files_created"@) == texts_value(task.files_created),
        task_snapshot(task).field("files_modified"@) == texts_value(task.files_modified),
        task_snapshot(task).field("commit_hash"@) == optional_text_value(task.commit_hash),
        task_snapshot(task).field("attempts"@) == RawModel::Int(task.attempts as int),
        task_snapshot(task).field("notes"@) == RawModel::Text(task.notes),
{
    reveal_with_fuel(find_member, 14);
    lemma_task_keys();
}

/// Each member of the snapshot of a task list is found under its name.
pub proof fn lemma_task_list_snapshot_fields(list: TaskListModel)
    ensures
        task_list_snapshot(list).field("project"@) == RawModel::Text(list.project),
        task_list_snapshot(list).field("language"@) == RawModel::Text(list.language),
        task_list_snapshot(list).field("phases"@) == texts_value(list.phases),
        task_list_snapshot(list).field("tasks"@) == tasks_value(list.tasks),
        task_list_snapshot(list).field("version"@) == RawModel::Text(list.version),
        task_list_snapshot(list).field("created_at"@) == optional_text_value(list.created_at),
        task_list_snapshot(list).field("updated_at"@) == optional_text_value(list.updated_at),
{
    reveal_with_fuel(find_member, 8);
    lemma_task_list_keys();
}

/// A list of texts is read back as it was written.
pub proof fn lemma_texts_round_trip(items: Seq<Seq<char>>)
    ensures
        read_texts(texts_value(items)) == Some(items),
{
}

/// A status and a complexity are read back from their names.
pub proof fn lemma_names_round_trip(status: TaskStatus, complexity: TaskComplexity)
    ensures
        status_named(status_name(status)) == Some(status),
        complexity_named(complexity_name(complexity)) == Some(complexity),
{
    lemma_stored_names();
}

/// A task is read back from its snapshot as it was written.
pub proof fn lemma_task_round_trip(task: TaskModel)
    ensures
        task_from_snapshot(task_snapshot(task)) == Some(task),
{
    lemma_task_snapshot_fields(task);
    lemma_texts_round_trip(task.dependencies);
    lemma_texts_round_trip(task.files_created);
    lemma_texts_round_trip(task.files_modified);
    lemma_names_round_trip(task.status, task.estimated_complexity);
}

/// The tasks of a list are read back as they were written: as many, in the
/// same order, each with every field.
pub proof fn lemma_tasks_round_trip(tasks: Seq<TaskModel>)
    ensures
        read_tasks(tasks_value(tasks)) == Some(tasks),
{
    let items = tasks_value(tasks)->Array_0;
    assert forall|i: int| 0 <= i < items.len() implies is_task_snapshot(#[trigger] items[i]) by {
        lemma_task_round_trip(tasks[i]);
    }
    assert forall|i: int| 0 <= i < tasks.len() implies read_tasks(tasks_value(tasks))->0[i]
        == tasks[i] by {
        lemma_task_round_trip(tasks[i]);
    }
}

/// A task list that is written as a snapshot and read back is the list that
/// was written: the same tasks in the same order, and every field of the
/// list and of each task as it was.
pub proof fn lemma_snapshot_round_trip(list: TaskListModel)
    ensures
        task_list_from_snapshot(task_list_snapshot(list)) == Some(list),
{
    lemma_task_list_snapshot_fields(list);
    lemma_texts_round_trip(list.phases);
    lemma_tasks_round_trip(list.tasks);
}

/// A list of texts as a value.
fn texts_to_raw(items: &Vec<String>) -> (value: RawValue)
    ensures
        value@ == texts_value(items.deep_view()),
{
    let mut out: Vec<RawValue> = Vec::new();
    let mut i: usize = 0;
    while i < items.len()
        invariant
            i <= items.len(),
            out.len() == i,
            forall|k: int| 0 <= k < i ==> (#[trigger] out[k])@ == RawModel::Text(items[k]@),
        decreases items.len() - i,
    {
        out.push(RawValue::text(items[i].as_str()));
        i += 1;
    }
    let value = RawValue::array(out);
    assert(value@->Array_0 =~= texts_value(items.deep_view())->Array_0);
    value
}

/// An optional text as a value.
fn optional_text_to_raw(text: &Option<String>) -> (value: RawValue)
    ensures
        value@ == optional_text_value(text.deep_view()),
{
    match text {
        Some(s) => RawValue::text(s.as_str()),
        None => RawValue::Null,
    }
}

/// The stored name of a status.
pub fn status_text(status: TaskStatus) -> (name: &'static str)
    ensures
        name@ == status_name(status),
{
    match status {
        TaskStatus::Pending => "pending",
        TaskStatus::InProgress => "in_progress",
        TaskStatus::Completed => "completed",
        TaskStatus::Failed => "failed",
        TaskStatus::Blocked => "blocked",
    }
}

/// The stored name of a complexity.
pub fn complexity_text(complexity: TaskComplexity) -> (name: &'static str)
    ensures
        name@ == complexity_name(complexity),
{
    match complexity {
        TaskComplexity::Low => "low",
        TaskComplexity::Medium => "medium",
        TaskComplexity::High => "high",
    }
}

/// The status with the given stored name.
pub fn status_from_text(name: &str) -> (status: Option<TaskStatus>)
    ensures
        status == status_named(name@),
{
    if same_text(name, "pending") {
        Some(TaskStatus::Pending)
    } else if same_text(name, "in_progress") {
        Some(TaskStatus::InProgress)
    } else if same_text(name, "completed") {
        Some(TaskStatus::Completed)
    } else if same_text(name, "failed") {
        Some(TaskStatus::Failed)
    } else if same_text(name, "blocked") {
        Some(TaskStatus::Blocked)
    } else {
        None
    }
}

/// The complexity with the given stored name.
pub fn complexity_from_text(name: &str) -> (complexity: Option<TaskComplexity>)
    ensures
        complexity == complexity_named(name@),
{
    if same_text(name, "low") {
        Some(TaskComplexity::Low)
    } else if same_text(name, "medium") {
        Some(TaskComplexity::Medium)
    } else if same_text(name, "high") {
        Some(TaskComplexity::High)
    } else {
        None
    }
}

/// The snapshot of one task.
fn task_to_snapshot(task: &Task) -> (value: RawValue)
    ensures
        value@ == task_snapshot(task@),
{
    let mut members: Vec<(String, RawValue)> = Vec::new();
    members.push(("id".to_owned(), RawValue::text(task.id.as_str())));
    members.push(("title".to_owned(), RawValue::text(task.title.as_str())));
    members.push(("description".to_owned(), RawValue::text(task.description.as_str())));
    members.push(("priority".to_owned(), RawValue::unsigned(task.priority as u64)));
    members.push(("status".to_owned(), RawValue::text(status_text(task.status))));
    members.push(("dependencies".to_owned(), texts_to_raw(&task.dependencies)));
    members.push(("user_story_id".to_owned(), optional_text_to_raw(&task.user_story_id)));
    members.push(
        ("estimated_complexity".to_owned(), RawValue::text(complexity_text(task.estimated_complexity))),
    );
    members.push(("files_created".to_owned(), texts_to_raw(&task.files_created)));
    members.push(("files_modified".to_owned(), texts_to_raw(&task.files_modified)));
    members.push(("commit_hash".to_owned(), optional_text_to_raw(&task.commit_hash)));
    members.push(("attempts".to_owned(), RawValue::unsigned(task.attempts as u64)));
    members.push(("notes".to_owned(), RawValue::text(task.notes.as_str())));
    let value = RawValue::object(members);
    assert(value@->Object_0 =~= task_snapshot(task@)->Object_0);
    value
}

/// A list of texts, read back.
fn texts_from_raw(value: Option<&RawValue>) -> (r: Option<Vec<String>>)
    ensures
        r.deep_view() == read_texts(model_of(value)),
{
    match items_of(value) {
        Some(items) => {
            let ghost model = items.deep_view();
            let mut out: Vec<String> = Vec::new();
            let mut i: usize = 0;
            while i < items.len()
                invariant
                    i <= items.len(),
                    out.len() == i,
                    model == items.deep_view(),
                    model_of(value) == RawModel::Array(model),
                    forall|k: int| 0 <= k < i ==> model[k] is Text,
                    forall|k: int| 0 <= k < i ==> (#[trigger] out[k])@ == model[k]->Text_0,
                decreases items.len() - i,
            {
                match items[i].as_str() {
                    Some(s) => {
                        assert(model[i as int] == items[i as int]@);
                        out.push(s.to_owned());
                    },
                    None => {
                        return None;
                    },
                }
                i += 1;
            }
            Some(out)
        },
        None => None,
    }
}

/// An optional text, read back.
fn optional_text_from_raw(value: Option<&RawValue>) -> (r: Option<Option<String>>)
    ensures
        r.deep_view() == read_optional_text(model_of(value)),
{
    match value {
        None => Some(None),
        Some(RawValue::Null) => Some(None),
        Some(RawValue::Text(s)) => Some(Some(s.clone())),
        Some(_) => None,
    }
}

/// A 32-bit number, read back.
fn u32_from_raw(value: Option<&RawValue>) -> (r: Option<u32>)
    ensures
        r == read_u32(model_of(value)),
{
    let number = match value {
        Some(v) => v.as_u64(),
        None => None,
    };
    match number {
        Some(n) => if n <= u32::MAX as u64 {
            Some(n as u32)
        } else {
            None
        },
        None => None,
    }
}

/// A status, read back.
fn status_from_raw(value: Option<&RawValue>) -> (r: Option<TaskStatus>)
    ensures
        r == read_status(model_of(value)),
{
    match crate::raw::text_of(value) {
        Some(name) => status_from_text(name),
        None => None,
    }
}

/// A complexity, read back.
fn complexity_from_raw(value: Option<&RawValue>) -> (r: Option<TaskComplexity>)
    ensures
        r == read_complexity(model_of(value)),
{
    match crate::raw::text_of(value) {
        Some(name) => complexity_from_text(name),
        None => None,
    }
}

/// The task that a snapshot holds.
fn task_from_raw(json: &RawValue) -> (r: Option<Task>)
    ensures
        r.deep_view() == task_from_snapshot(json@),
{
    if !json.is_object() {
        return None;
    }
    let id = owned_text(json.get("id"))?;
    let title = owned_text(json.get("title"))?;
    let description = owned_text(json.get("description"))?;
    let priority = u32_from_raw(json.get("priority"))?;
    let status = status_from_raw(json.get("status"))?;
    let dependencies = texts_from_raw(json.get("dependencies"))?;
    let user_story_id = optional_text_from_raw(json.get("user_story_id"))?;
    let estimated_complexity = complexity_from_raw(json.get("estimated_complexity"))?;
    let files_created = texts_from_raw(json.get("files_created"))?;
    let files_modified = texts_from_raw(json.get("files_modified"))?;
    let commit_hash = optional_text_from_raw(json.get("commit_hash"))?;
    let attempts = u32_from_raw(json.get("attempts"))?;
    let notes = owned_text(json.get("notes"))?;
    Some(
        Task {
            id,
            title,
            description,
            priority,
            status,
            dependencies,
            user_story_id,
            estimated_complexity,
            files_created,
            files_modified,
            commit_hash,
            attempts,
            notes,
        },
    )
}

/// The tasks that a value lists.
fn tasks_from_raw(value: Option<&RawValue>) -> (r: Option<Vec<Task>>)
    ensures
        r.deep_view() == read_tasks(model_of(value)),
{
    match items_of(value) {
        Some(items) => {
            let ghost model = items.deep_view();
            let mut out: Vec<Task> = Vec::new();
            let mut i: usize = 0;
            while i < items.len()
                invariant
                    i <= items.len(),
                    out.len() == i,
                    model == items.deep_view(),
                    model_of(value) == RawModel::Array(model),
                    forall|k: int| 0 <= k < i ==> is_task_snapshot(#[trigger] model[k]),
                    forall|k: int|
                        0 <= k < i ==> Some((#[trigger] out[k])@) == task_from_snapshot(model[k]),
                decreases items.len() - i,
            {
                assert(model[i as int] == items[i as int]@);
                match task_from_raw(&items[i]) {
                    Some(task) => {
                        out.push(task);
                    },
                    None => {
                        return None;
                    },
                }
                i += 1;
            }
            Some(out)
        },
        None => None,
    }
}

/// The message for a value that is no snapshot of a task list.
pub open spec fn not_a_snapshot() -> Seq<char> {
    "the snapshot is not a task list"@
}

impl TaskList {
    /// The snapshot of the list: every task in its place, every field with
    /// its value.
    pub fn to_snapshot(&self) -> (value: RawValue)
        ensures
            value@ == task_list_snapshot(self@),
            task_list_from_snapshot(value@) == Some(self@),
    {
        let mut tasks: Vec<RawValue> = Vec::new();
        let mut i: usize = 0;
        while i < self.tasks.len()
            invariant
                i <= self.tasks.len(),
                tasks.len() == i,
                forall|k: int| 0 <= k < i ==> (#[trigger] tasks[k])@ == task_snapshot(self.tasks[k]@),
            decreases self.tasks.len() - i,
        {
            tasks.push(task_to_snapshot(&self.tasks[i]));
            i += 1;
        }
        let listed = RawValue::array(tasks);
        assert(listed@->Array_0 =~= tasks_value(self@.tasks)->Array_0);
        let mut members: Vec<(String, RawValue)> = Vec::new();
        members.push(("project".to_owned(), RawValue::text(self.project.as_str())));
        members.push(("language".to_owned(), RawValue::text(self.language.as_str())));
        members.push(("phases".to_owned(), texts_to_raw(&self.phases)));
        members.push(("tasks".to_owned(), listed));
        members.push(("version".to_owned(), RawValue::text(self.version.as_str())));
        members.push(("created_at".to_owned(), optional_text_to_raw(&self.created_at)));
        members.push(("updated_at".to_owned(), optional_text_to_raw(&self.updated_at)));
        let value = RawValue::object(members);
        assert(value@->Object_0 =~= task_list_snapshot(self@)->Object_0);
        proof {
            lemma_snapshot_round_trip(self@);
        }
        value
    }

    /// Reads a list back from a snapshot. A value that is no snapshot of a
    /// task list is a parse error; nothing of a snapshot is dropped or
    /// reordered.
    pub fn from_snapshot(json: &RawValue) -> (r: Result<TaskList, RalphError>)
        ensures
            r is Ok <==> is_task_list_snapshot(json@),
            r matches Ok(list) ==> Some(list@) == task_list_from_snapshot(json@),
            r matches Err(e) ==> e matches RalphError::Parse(m) && m@ == not_a_snapshot(),
    {
        match Self::read_snapshot(json) {
            Some(list) => Ok(list),
            None => Err(RalphError::Parse("the snapshot is not a task list".to_owned())),
        }
    }

    /// The list that a snapshot holds, if the value is one.
    fn read_snapshot(json: &RawValue) -> (r: Option<TaskList>)
        ensures
            r.deep_view() == task_list_from_snapshot(json@),
    {
        if !json.is_object() {
            return None;
        }
        let project = owned_text(json.get("project"))?;
        let language = owned_text(json.get("language"))?;
        let phases = texts_from_raw(json.get("phases"))?;
        let tasks = tasks_from_raw(json.get("tasks"))?;
        let version = owned_text(json.get("version"))?;
        let created_at = optional_text_from_raw(json.get("created_at"))?;
        let updated_at = optional_text_from_raw(json.get("updated_at"))?;
        Some(TaskList { project, language, phases, tasks, version, created_at, updated_at })
    }

    /// The list as JSON text: its snapshot, written by `write_json`.
    pub fn to_json(&self) -> (r: Result<String, RalphError>)
        ensures
            match r {
                Ok(text) => rendered_json(task_list_snapshot(self@)) == Ok::<
                    Seq<char>,
                    Seq<char>,
                >(text@),
                Err(e) => e matches RalphError::Parse(m) && rendered_json(
                    task_list_snapshot(self@),
                ) == Err::<Seq<char>, Seq<char>>(m@),
            },
    {
        let snapshot = self.to_snapshot();
        match render_json(&snapshot) {
            Ok(text) => Ok(text),
            Err(message) => Err(RalphError::Parse(message)),
        }
    }

    /// Reads a list back from JSON text. A text that is no JSON, and a JSON
    /// value that is no snapshot of a task list, are parse errors.
    pub fn from_json(text: &str) -> (r: Result<TaskList, RalphError>)
        ensures
            match parsed_json(text@) {
                Ok(json) => {
                    &&& r is Ok <==> is_task_list_snapshot(json)
                    &&& r matches Ok(list) ==> Some(list@) == task_list_from_snapshot(json)
                    &&& r matches Err(e) ==> e matches RalphError::Parse(m) && m@
                        == not_a_snapshot()
                },
                Err(message) => r matches Err(RalphError::Parse(m)) && m@ == message,
            },
    {
        match parse_json(text) {
            Ok(json) => Self::from_snapshot(&json),
            Err(message) => Err(RalphError::Parse(message)),
        }
    }
}

} // verus!
