//! One-line summaries of what a tool has answered: the outcome of a test
//! run, of a commit, of a command, or the task that comes next.

use vstd::prelude::*;
use crate::output::{shorten, shorten_spec, RalphOutput};
use crate::raw::{items_of, member, model_of, text_of, text_or, RawModel, RawValue};
use crate::text::{
    chars_of,
    clip,
    clip_spec,
    contains_chars,
    contains_text,
    lines_of,
    lowercase_of,
    same_text,
    text_lines,
};

verus! {

/// How many lines of errors a failed test run shows.
pub const ERROR_LINES: usize = 3;

/// How many of its last lines a failed command shows.
pub const LAST_LINES: usize = 2;

/// The longest line of errors that is shown whole, in bytes.
pub const LINE_LIMIT: usize = 100;

/// The longest message of a commit that is shown whole, in bytes.
pub const MESSAGE_LIMIT: usize = 50;

/// How many bytes of the hash of a commit are shown.
pub const HASH_SHOWN: usize = 7;

/// What there is to say of the answer of a tool.
#[derive(Debug, Clone, PartialEq, Eq)]
pub enum ToolSummary {
    /// Nothing worth a line.
    Nothing,
    /// All tests passed.
    TestsPassed { passed: u64, skipped: u64 },
    /// Some test failed; with the first lines of the output that speak of a
    /// failure.
    TestsFailed { passed: u64, failed: u64, skipped: u64, errors: Vec<String> },
    /// A message of the tool.
    Notice(String),
    /// A commit was made; with the start of its hash and of its message.
    Committed { hash: String, message: String },
    /// A commit was made, and its hash is not known.
    CommittedUnnamed,
    /// Files were staged.
    Staged { files: usize },
    /// An operation on a file failed.
    FileFailed { operation: String, path: String },
    /// A command ran and succeeded.
    RunSucceeded { command: String },
    /// A command ran and failed; with the last lines of its output.
    RunFailed { command: String, errors: Vec<String> },
    /// The task that comes next.
    NextTask { id: String, title: String },
    /// No task is left.
    AllComplete,
    /// Tasks are waiting for others.
    Blocked { count: u64 },
}

/// What a `ToolSummary` holds.
pub enum SummaryModel {
    Nothing,
    TestsPassed { passed: u64, skipped: u64 },
    TestsFailed { passed: u64, failed: u64, skipped: u64, errors: Seq<Seq<char>> },
    Notice(Seq<char>),
    Committed { hash: Seq<char>, message: Seq<char> },
    CommittedUnnamed,
    Staged { files: nat },
    FileFailed { operation: Seq<char>, path: Seq<char> },
    RunSucceeded { command: Seq<char> },
    RunFailed { command: Seq<char>, errors: Seq<Seq<char>> },
    NextTask { id: Seq<char>, title: Seq<char> },
    AllComplete,
    Blocked { count: u64 },
}

impl View for ToolSummary {
    type V = SummaryModel;

    open spec fn view(&self) -> SummaryModel {
        match self {
            ToolSummary::Nothing => SummaryModel::Nothing,
            ToolSummary::TestsPassed { passed, skipped } => SummaryModel::TestsPassed {
                passed: *passed,
                skipped: *skipped,
            },
            ToolSummary::TestsFailed { passed, failed, skipped, errors } => SummaryModel::TestsFailed {
                passed: *passed,
                failed: *failed,
                skipped: *skipped,
                errors: errors.deep_view(),
            },
            ToolSummary::Notice(m) => SummaryModel::Notice(m@),
            ToolSummary::Committed { hash, message } => SummaryModel::Committed {
                hash: hash@,
                message: message@,
            },
            ToolSummary::CommittedUnnamed => SummaryModel::CommittedUnnamed,
            ToolSummary::Staged { files } => SummaryModel::Staged { files: *files as nat },
            ToolSummary::FileFailed { operation, path } => SummaryModel::FileFailed {
                operation: operation@,
                path: path@,
            },
            ToolSummary::RunSucceeded { command } => SummaryModel::RunSucceeded { command: command@ },
            ToolSummary::RunFailed { command, errors } => SummaryModel::RunFailed {
                command: command@,
                errors: errors.deep_view(),
            },
            ToolSummary::NextTask { id, title } => SummaryModel::NextTask { id: id@, title: title@ },
            ToolSummary::AllComplete => SummaryModel::AllComplete,
            ToolSummary::Blocked { count } => SummaryModel::Blocked { count: *count },
        }
    }
}

/// The count under `key`, or 0 where there is none.
pub open spec fn count_of(value: RawModel, key: Seq<char>) -> u64 {
    match value.field(key).as_u64() {
        Some(n) => n,
        None => 0,
    }
}

/// Whether the member `key` is `true`.
pub open spec fn is_set(value: RawModel, key: Seq<char>) -> bool {
    value.field(key).as_bool() == Some(true)
}

/// Whether a text in lower case holds `fail`, `error` or `assert`.
pub open spec fn mentions_failure_spec(lower: Seq<char>) -> bool {
    contains_text(lower, "fail"@) || contains_text(lower, "error"@) || contains_text(
        lower,
        "assert"@,
    )
}

/// Whether a line of output speaks of a failure: in lower case it holds
/// `fail`, `error` or `assert`.
pub open spec fn is_error_line(line: Seq<char>) -> bool {
    mentions_failure_spec(lowercase_of(line))
}

/// A line as it is shown: cut behind `LINE_LIMIT` bytes.
pub open spec fn shown_line(line: Seq<char>) -> Seq<char> {
    shorten_spec(line, LINE_LIMIT as nat, LINE_LIMIT as nat, Seq::empty())
}

/// The first `wanted` lines that speak of a failure, as they are shown.
pub open spec fn first_errors(lines: Seq<Seq<char>>, wanted: nat) -> Seq<Seq<char>>
    decreases lines.len(),
{
    if lines.len() == 0 || wanted == 0 {
        Seq::empty()
    } else if is_error_line(lines[0]) {
        seq![shown_line(lines[0])] + first_errors(lines.drop_first(), (wanted - 1) as nat)
    } else {
        first_errors(lines.drop_first(), wanted)
    }
}

/// The last `LAST_LINES` lines, in their order, as they are shown.
pub open spec fn last_lines(lines: Seq<Seq<char>>) -> Seq<Seq<char>> {
    let from = if lines.len() > LAST_LINES {
        lines.len() - LAST_LINES
    } else {
        0
    };
    Seq::new((lines.len() - from) as nat, |i: int| shown_line(lines[from + i]))
}

/// The lines shown of the error output of a failed test run.
pub open spec fn test_errors(response: RawModel) -> Seq<Seq<char>> {
    match response.field("stderr"@) {
        RawModel::Text(t) => first_errors(lines_of(t), ERROR_LINES as nat),
        _ => Seq::empty(),
    }
}

/// The lines shown of the error output of a failed command.
pub open spec fn run_errors(response: RawModel) -> Seq<Seq<char>> {
    match response.field("stderr"@) {
        RawModel::Text(t) => last_lines(lines_of(t)),
        _ => Seq::empty(),
    }
}

/// The summary of a test run.
pub open spec fn test_summary(response: RawModel) -> SummaryModel {
    if response.has_field("results"@) {
        let results = response.field("results"@);
        if is_set(results, "all_passed"@) {
            SummaryModel::TestsPassed {
                passed: count_of(results, "passed"@),
                skipped: count_of(results, "skipped"@),
            }
        } else {
            SummaryModel::TestsFailed {
                passed: count_of(results, "passed"@),
                failed: count_of(results, "failed"@),
                skipped: count_of(results, "skipped"@),
                errors: test_errors(response),
            }
        }
    } else {
        match response.field("message"@) {
            RawModel::Text(m) => SummaryModel::Notice(m),
            _ => SummaryModel::Nothing,
        }
    }
}

/// The summary of an operation of version control.
pub open spec fn git_summary(response: RawModel) -> SummaryModel {
    match response.field("operation"@) {
        RawModel::Text(operation) => if operation == "commit"@ {
            match response.field("commit_hash"@) {
                RawModel::Text(hash) => SummaryModel::Committed {
                    hash: clip_spec(hash, HASH_SHOWN as nat),
                    message: shorten_spec(
                        response.field("message"@).text_or(""@),
                        MESSAGE_LIMIT as nat,
                        MESSAGE_LIMIT as nat,
                        Seq::empty(),
                    ),
                },
                _ => SummaryModel::CommittedUnnamed,
            }
        } else if operation == "add"@ {
            match response.field("files"@) {
                RawModel::Array(files) => SummaryModel::Staged { files: files.len() },
                _ => SummaryModel::Nothing,
            }
        } else {
            SummaryModel::Nothing
        },
        _ => SummaryModel::Nothing,
    }
}

/// The summary of an operation on a file: only a failure is worth a line.
pub open spec fn file_summary(response: RawModel) -> SummaryModel {
    if response.field("success"@).as_bool() == Some(false) {
        match response.field("operation"@) {
            RawModel::Text(operation) => SummaryModel::FileFailed {
                operation,
                path: response.field("path"@).text_or("unknown"@),
            },
            _ => SummaryModel::Nothing,
        }
    } else {
        SummaryModel::Nothing
    }
}

/// The summary of a command that was run.
pub open spec fn run_summary(response: RawModel) -> SummaryModel {
    match response.field("command"@) {
        RawModel::Text(command) => if is_set(response, "success"@) {
            SummaryModel::RunSucceeded { command }
        } else {
            SummaryModel::RunFailed { command, errors: run_errors(response) }
        },
        _ => SummaryModel::Nothing,
    }
}

/// The summary of an answer of the task list.
pub open spec fn tasks_summary(response: RawModel) -> SummaryModel {
    if response.has_field("task"@) {
        let task = response.field("task"@);
        SummaryModel::NextTask {
            id: task.field("id"@).text_or("?"@),
            title: task.field("title"@).text_or(""@),
        }
    } else if is_set(response, "all_complete"@) {
        SummaryModel::AllComplete
    } else {
        match response.field("blocked_count"@).as_u64() {
            Some(count) => SummaryModel::Blocked { count },
            None => SummaryModel::Nothing,
        }
    }
}

/// The summary of the answer of the tool `name`.
pub open spec fn summary_spec(name: Seq<char>, response: RawModel) -> SummaryModel {
    if name == "test"@ {
        test_summary(response)
    } else if name == "git"@ {
        git_summary(response)
    } else if name == "file"@ {
        file_summary(response)
    } else if name == "run_project"@ {
        run_summary(response)
    } else if name == "tasks"@ {
        tasks_summary(response)
    } else {
        SummaryModel::Nothing
    }
}

/// The count under `key`.
fn count_in(value: Option<&RawValue>, key: &str) -> (n: u64)
    ensures
        n == count_of(model_of(value), key@),
{
    match member(value, key) {
        Some(v) => match v.as_u64() {
            Some(n) => n,
            None => 0,
        },
        None => 0,
    }
}

/// The truth value under `key`, if there is one.
fn flag_in(value: Option<&RawValue>, key: &str) -> (b: Option<bool>)
    ensures
        b == model_of(value).field(key@).as_bool(),
{
    match member(value, key) {
        Some(v) => v.as_bool(),
        None => None,
    }
}

/// Whether a text that is in lower case already holds `fail`, `error` or
/// `assert`.
pub fn mentions_failure(lowered: &str) -> (b: bool)
    ensures
        b == mentions_failure_spec(lowered@),
{
    let lower = chars_of(lowered);
    let fail = chars_of("fail");
    let error = chars_of("error");
    let assertion = chars_of("assert");
    contains_chars(&lower, &fail) || contains_chars(&lower, &error) || contains_chars(
        &lower,
        &assertion,
    )
}

/// Whether a line speaks of a failure, in whatever case.
pub fn speaks_of_failure(line: &str) -> (b: bool)
    ensures
        b == is_error_line(line@),
{
    let lowered = line.to_lowercase();
    mentions_failure(lowered.as_str())
}

/// A line as it is shown.
fn cut_line(line: &str) -> (shown: String)
    ensures
        shown@ == shown_line(line@),
{
    proof {
        reveal_strlit("");
    }
    shorten(line, LINE_LIMIT, LINE_LIMIT, "")
}

/// The first lines of `text` that speak of a failure.
fn first_error_lines(text: &str) -> (out: Vec<String>)
    ensures
        out.deep_view() == first_errors(lines_of(text@), ERROR_LINES as nat),
{
    let lines = text_lines(text);
    let ghost all = lines.deep_view();
    let mut out: Vec<String> = Vec::new();
    let mut i: usize = 0;
    assert(all.skip(0) =~= all);
    while i < lines.len() && out.len() < ERROR_LINES
        invariant
            i <= lines.len(),
            out.len() <= ERROR_LINES,
            all == lines.deep_view(),
            out.deep_view() + first_errors(all.skip(i as int), (ERROR_LINES - out.len()) as nat)
                == first_errors(all, ERROR_LINES as nat),
        decreases lines.len() - i,
    {
        let ghost rest = all.skip(i as int);
        assert(rest.drop_first() =~= all.skip(i + 1));
        if speaks_of_failure(lines[i].as_str()) {
            let shown = cut_line(lines[i].as_str());
            out.push(shown);
        }
        i += 1;
    }
    out
}

/// The last lines of `text`.
fn last_error_lines(text: &str) -> (out: Vec<String>)
    ensures
        out.deep_view() == last_lines(lines_of(text@)),
{
    let lines = text_lines(text);
    let ghost all = lines.deep_view();
    let from: usize = if lines.len() > LAST_LINES {
        lines.len() - LAST_LINES
    } else {
        0
    };
    let mut out: Vec<String> = Vec::new();
    let mut i: usize = from;
    while i < lines.len()
        invariant
            from <= i <= lines.len(),
            out.len() == i - from,
            all == lines.deep_view(),
            forall|k: int| 0 <= k < out.len() ==> (#[trigger] out[k])@ == shown_line(all[from + k]),
        decreases lines.len() - i,
    {
        out.push(cut_line(lines[i].as_str()));
        i += 1;
    }
    out
}

/// Sums up a test run.
fn summarize_test(response: &RawValue) -> (s: ToolSummary)
    ensures
        s@ == test_summary(response@),
{
    match response.get("results") {
        Some(results) => {
            let passed = count_in(Some(results), "passed");
            let failed = count_in(Some(results), "failed");
            let skipped = count_in(Some(results), "skipped");
            let all_passed = match flag_in(Some(results), "all_passed") {
                Some(b) => b,
                None => false,
            };
            if all_passed {
                ToolSummary::TestsPassed { passed, skipped }
            } else {
                let errors = match text_of(response.get("stderr")) {
                    Some(text) => first_error_lines(text),
                    None => Vec::new(),
                };
                assert(errors.deep_view() =~= test_errors(response@));
                ToolSummary::TestsFailed { passed, failed, skipped, errors }
            }
        },
        None => match text_of(response.get("message")) {
            Some(m) => ToolSummary::Notice(m.to_owned()),
            None => ToolSummary::Nothing,
        },
    }
}

/// Sums up an operation of version control.
fn summarize_git(response: &RawValue) -> (s: ToolSummary)
    ensures
        s@ == git_summary(response@),
{
    match text_of(response.get("operation")) {
        Some(operation) => if same_text(operation, "commit") {
            match text_of(response.get("commit_hash")) {
                Some(hash) => {
                    let message = text_or(response.get("message"), "");
                    proof {
                        reveal_strlit("");
                    }
                    ToolSummary::Committed {
                        hash: clip(hash, HASH_SHOWN).to_owned(),
                        message: shorten(message.as_str(), MESSAGE_LIMIT, MESSAGE_LIMIT, ""),
                    }
                },
                None => ToolSummary::CommittedUnnamed,
            }
        } else if same_text(operation, "add") {
            match items_of(response.get("files")) {
                Some(files) => {
                    ToolSummary::Staged { files: files.len() }
                },
                None => ToolSummary::Nothing,
            }
        } else {
            ToolSummary::Nothing
        },
        None => ToolSummary::Nothing,
    }
}

/// Sums up an operation on a file.
fn summarize_file(response: &RawValue) -> (s: ToolSummary)
    ensures
        s@ == file_summary(response@),
{
    match flag_in(Some(response), "success") {
        Some(false) => match text_of(response.get("operation")) {
            Some(operation) => ToolSummary::FileFailed {
                operation: operation.to_owned(),
                path: text_or(response.get("path"), "unknown"),
            },
            None => ToolSummary::Nothing,
        },
        _ => ToolSummary::Nothing,
    }
}

/// Sums up a command that was run.
fn summarize_run(response: &RawValue) -> (s: ToolSummary)
    ensures
        s@ == run_summary(response@),
{
    let success = match flag_in(Some(response), "success") {
        Some(b) => b,
        None => false,
    };
    match text_of(response.get("command")) {
        Some(command) => if success {
            ToolSummary::RunSucceeded { command: command.to_owned() }
        } else {
            let errors = match text_of(response.get("stderr")) {
                Some(text) => last_error_lines(text),
                None => Vec::new(),
            };
            assert(errors.deep_view() =~= run_errors(response@));
            ToolSummary::RunFailed { command: command.to_owned(), errors }
        },
        None => ToolSummary::Nothing,
    }
}

/// Sums up an answer of the task list.
fn summarize_tasks(response: &RawValue) -> (s: ToolSummary)
    ensures
        s@ == tasks_summary(response@),
{
    match response.get("task") {
        Some(task) => ToolSummary::NextTask {
            id: text_or(task.get("id"), "?"),
            title: text_or(task.get("title"), ""),
        },
        None => {
            let all_complete = match flag_in(Some(response), "all_complete") {
                Some(b) => b,
                None => false,
            };
            if all_complete {
                ToolSummary::AllComplete
            } else {
                let blocked = match response.get("blocked_count") {
                    Some(v) => v.as_u64(),
                    None => None,
                };
                match blocked {
                    Some(count) => ToolSummary::Blocked { count },
                    None => ToolSummary::Nothing,
                }
            }
        },
    }
}

/// Sums up the answer of the tool `name`. The tools that are summed up are
/// `test`, `git`, `file`, `run_project` and `tasks`; of any other there is
/// nothing to say.
pub fn summarize_tool_result(name: &str, response: &RawValue) -> (s: ToolSummary)
    ensures
        s@ == summary_spec(name@, response@),
{
    if same_text(name, "test") {
        summarize_test(response)
    } else if same_text(name, "git") {
        summarize_git(response)
    } else if same_text(name, "file") {
        summarize_file(response)
    } else if same_text(name, "run_project") {
        summarize_run(response)
    } else if same_text(name, "tasks") {
        summarize_tasks(response)
    } else {
        ToolSummary::Nothing
    }
}

impl RalphOutput {
    /// The line that sums up the answer of a tool. At `Normal` only: below
    /// it nothing is shown, and above it the whole answer is shown instead.
    pub fn tool_result_summary(&self, name: &str, response: &RawValue) -> (s: ToolSummary)
        ensures
            s@ == (if self.spec_level().rank() == 1 {
                summary_spec(name@, response@)
            } else {
                SummaryModel::Nothing
            }),
    {
        if !self.shows_tool_summaries() {
            return ToolSummary::Nothing;
        }
        summarize_tool_result(name, response)
    }
}

} // verus!
