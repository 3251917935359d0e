//! Building the project tree from flat lists of paths, or from a block of
//! text with one path per line.

use vstd::prelude::*;
use crate::models::{is_segment, FileNode, FileStructure};
use crate::path::{clean_path, clean_path_spec};
use crate::raw::{string_list, RawModel, RawValue};
use crate::text::{chars_of, has_prefix_at, lines_of, string_of, text_lines, trim_spec};

verus! {

/// The position of the first `c` in `s`, or the length of `s` where it holds
/// none.
pub open spec fn position_of(s: Seq<char>, c: char) -> nat
    decreases s.len(),
{
    if s.len() == 0 || s[0] == c {
        0
    } else {
        1 + position_of(s.drop_first(), c)
    }
}

/// The segments of a path: the pieces between its slashes that are not
/// empty, in order.
pub open spec fn segments(path: Seq<char>) -> Seq<Seq<char>>
    decreases path.len(),
{
    let n = position_of(path, '/');
    if path.len() == 0 {
        Seq::empty()
    } else {
        let rest = if n < path.len() {
            segments(path.skip(n as int + 1))
        } else {
            Seq::empty()
        };
        if n == 0 {
            rest
        } else {
            seq![path.take(n as int)] + rest
        }
    }
}

/// The position of the first of `children` named `name` at or behind
/// `from`, or -1.
pub open spec fn find_child(children: Seq<FileNode>, name: Seq<char>, from: int) -> int
    decreases children.len() - from,
{
    if from < 0 || from >= children.len() {
        -1
    } else if children[from].name == name {
        from
    } else {
        find_child(children, name, from + 1)
    }
}

/// The tree with the path `parts` in it. Each segment is looked up among the
/// children of the node reached so far. One that is there is kept as it is,
/// whatever its kind. One that is missing is added behind its siblings: as a
/// directory if more segments follow or `is_directory` holds, else as a
/// file.
pub open spec fn insert_path(node: FileNode, parts: Seq<Seq<char>>, is_directory: bool) -> FileNode
    decreases parts.len(),
{
    if parts.len() == 0 {
        node
    } else {
        let at = find_child(node.children, parts[0], 0);
        if 0 <= at < node.children.len() {
            FileNode {
                children: node.children.update(
                    at,
                    insert_path(node.children[at], parts.drop_first(), is_directory),
                ),
                ..node
            }
        } else {
            let fresh = FileNode::leaf(parts[0], parts.len() > 1 || is_directory, Seq::empty());
            FileNode {
                children: node.children.push(
                    insert_path(fresh, parts.drop_first(), is_directory),
                ),
                ..node
            }
        }
    }
}

/// `position_of` is the first position that holds `c`.
pub proof fn lemma_position_of(s: Seq<char>, c: char, k: int)
    requires
        0 <= k <= s.len(),
        forall|j: int| 0 <= j < k ==> s[j] != c,
        k == s.len() || s[k] == c,
    ensures
        position_of(s, c) == k,
    decreases k,
{
    if k > 0 {
        lemma_position_of(s.drop_first(), c, k - 1);
    }
}

/// Splits the characters of a path into its segments.
pub fn split_segments(path: &Vec<char>) -> (parts: Vec<String>)
    ensures
        parts.deep_view() == segments(path@),
{
    let mut parts: Vec<String> = Vec::new();
    let mut start: usize = 0;
    let mut i: usize = 0;
    assert(path@.skip(0) =~= path@);
    while i < path.len()
        invariant
            start <= i <= path.len(),
            forall|k: int| start <= k < i ==> path@[k] != '/',
            segments(path@) == parts.deep_view() + segments(path@.skip(start as int)),
        decreases path.len() - i,
    {
        if path[i] == '/' {
            let ghost tail = path@.skip(start as int);
            proof {
                lemma_position_of(tail, '/', i - start);
                assert(tail.skip(i - start + 1) =~= path@.skip(i + 1));
                assert(tail.take(i - start) =~= path@.subrange(start as int, i as int));
            }
            if start < i {
                let piece = string_of(path, start, i);
                parts.push(piece);
            }
            start = i + 1;
        }
        i += 1;
    }
    let ghost tail = path@.skip(start as int);
    proof {
        lemma_position_of(tail, '/', path.len() - start);
        assert(tail.take(path.len() - start) =~= path@.subrange(start as int, path.len() as int));
    }
    if start < path.len() {
        let piece = string_of(path, start, path.len());
        parts.push(piece);
    }
    parts
}

/// The position of the first child named `name`.
fn child_position(node: &FileStructure, name: &String) -> (r: Option<usize>)
    ensures
        match r {
            Some(at) => at < node.children.len() && find_child(node@.children, name@, 0) == at,
            None => find_child(node@.children, name@, 0) == -1,
        },
{
    let mut i: usize = 0;
    while i < node.children.len()
        invariant
            i <= node.children.len(),
            node@.children.len() == node.children.len(),
            find_child(node@.children, name@, 0) == find_child(node@.children, name@, i as int),
        decreases node.children.len() - i,
    {
        assert(node@.children[i as int] == node.children[i as int]@);
        if node.children[i].name == *name {
            return Some(i);
        }
        i += 1;
    }
    None
}

/// Adds the segments `parts[start..]` below `node`.
fn insert_segments(node: &mut FileStructure, parts: &Vec<String>, start: usize, is_directory: bool)
    requires
        start <= parts.len(),
    ensures
        final(node)@ == insert_path(
            old(node)@,
            parts.deep_view().skip(start as int),
            is_directory,
        ),
    decreases parts.len() - start,
{
    if start >= parts.len() {
        return ;
    }
    let ghost before = node@;
    let ghost rest = parts.deep_view().skip(start as int);
    assert(rest.drop_first() =~= parts.deep_view().skip(start + 1));
    let more = start + 1 < parts.len();
    match child_position(node, &parts[start]) {
        Some(at) => {
            insert_segments(&mut node.children[at], parts, start + 1, is_directory);
            assert(node@.children =~= before.children.update(
                at as int,
                insert_path(before.children[at as int], rest.drop_first(), is_directory),
            ));
        },
        None => {
            let mut fresh = if more || is_directory {
                FileStructure::directory(parts[start].as_str(), "")
            } else {
                FileStructure::file(parts[start].as_str(), "")
            };
            proof {
                reveal_strlit("");
                assert(""@ =~= Seq::<char>::empty());
            }
            insert_segments(&mut fresh, parts, start + 1, is_directory);
            node.children.push(fresh);
            assert(node@.children =~= before.children.push(fresh@));
        },
    }
}

/// Adds a path to the tree, creating the directories on the way as needed.
/// A node that is already there is reused and keeps its kind.
pub fn add_path_to_structure(root: &mut FileStructure, path: &str, is_directory: bool)
    ensures
        final(root)@ == insert_path(old(root)@, segments(path@), is_directory),
        final(root)@.name == old(root)@.name,
        old(root)@.well_formed() ==> final(root)@.well_formed(),
{
    proof {
        lemma_segments_are_names(path@);
        if root@.well_formed() {
            lemma_insert_keeps_well_formed(root@, segments(path@), is_directory);
        }
    }
    let chars = chars_of(path);
    let parts = split_segments(&chars);
    assert(parts.deep_view().skip(0) =~= parts.deep_view());
    insert_segments(root, &parts, 0, is_directory);
}

/// The description that the root of a tree is given.
pub open spec fn root_description() -> Seq<char> {
    "Project root"@
}

/// The root of an empty tree: a directory named after the project.
pub open spec fn project_root(project: Seq<char>) -> FileNode {
    FileNode::leaf(project, true, root_description())
}

/// The tree after each of `paths` has been sanitised and, unless nothing is
/// left of it, added in order.
pub open spec fn add_paths(
    root: FileNode,
    paths: Seq<Seq<char>>,
    project: Seq<char>,
    is_directory: bool,
) -> FileNode
    decreases paths.len(),
{
    if paths.len() == 0 {
        root
    } else {
        let before = add_paths(root, paths.drop_last(), project, is_directory);
        let clean = clean_path_spec(paths.last(), project);
        if clean.len() == 0 {
            before
        } else {
            insert_path(before, segments(clean), is_directory)
        }
    }
}

/// The tree for lists of directories and files: no tree where both are
/// empty; else the directories are added first, then the files.
pub open spec fn structured_tree(
    directories: Seq<Seq<char>>,
    files: Seq<Seq<char>>,
    project: Seq<char>,
) -> Option<FileNode> {
    if directories.len() == 0 && files.len() == 0 {
        None
    } else {
        Some(
            add_paths(
                add_paths(project_root(project), directories, project, true),
                files,
                project,
                false,
            ),
        )
    }
}

/// `s` without any number of leading repetitions of `p`.
pub open spec fn strip_repeated(s: Seq<char>, p: Seq<char>) -> Seq<char>
    decreases s.len(),
{
    if p.len() > 0 && p.is_prefix_of(s) {
        strip_repeated(s.skip(p.len() as int), p)
    } else {
        s
    }
}

/// A trimmed line without its bullet markers: leading `- `, then leading
/// `* `.
pub open spec fn strip_bullets(line: Seq<char>) -> Seq<char> {
    strip_repeated(strip_repeated(line, seq!['-', ' ']), seq!['*', ' '])
}

/// The tree after one line of text has been read. A blank line and a
/// heading, which starts with `#`, add nothing. Any other line is a path; a
/// slash at its end marks a directory.
pub open spec fn add_text_line(root: FileNode, line: Seq<char>, project: Seq<char>) -> FileNode {
    let entry = strip_bullets(trim_spec(line));
    if entry.len() == 0 || entry[0] == '#' {
        root
    } else {
        let clean = clean_path_spec(entry, project);
        if clean.len() == 0 {
            root
        } else {
            insert_path(root, segments(clean), clean.last() == '/')
        }
    }
}

/// The tree after the lines have been read in order.
pub open spec fn add_text_lines(root: FileNode, lines: Seq<Seq<char>>, project: Seq<char>) -> FileNode
    decreases lines.len(),
{
    if lines.len() == 0 {
        root
    } else {
        add_text_line(add_text_lines(root, lines.drop_last(), project), lines.last(), project)
    }
}

/// The tree for a block of text: no tree for the empty text.
pub open spec fn text_tree(text: Seq<char>, project: Seq<char>) -> Option<FileNode> {
    if text.len() == 0 {
        None
    } else {
        Some(add_text_lines(project_root(project), lines_of(text), project))
    }
}

/// The tree that a raw value describes: an object gives its lists
/// `directories` and `files`, a string is read line by line, anything else
/// describes no tree.
pub open spec fn file_structure_spec(json: RawModel, project: Seq<char>) -> Option<FileNode> {
    match json {
        RawModel::Object(_) => structured_tree(
            json.field("directories"@).string_list(),
            json.field("files"@).string_list(),
            project,
        ),
        RawModel::Text(text) => text_tree(text, project),
        _ => None,
    }
}

/// Sanitises each path and adds what is left of it to the tree.
fn add_all(root: &mut FileStructure, paths: &Vec<String>, project_name: &str, is_directory: bool)
    ensures
        final(root)@ == add_paths(old(root)@, paths.deep_view(), project_name@, is_directory),
{
    let mut i: usize = 0;
    let ghost all = paths.deep_view();
    while i < paths.len()
        invariant
            i <= paths.len(),
            all == paths.deep_view(),
            root@ == add_paths(old(root)@, all.take(i as int), project_name@, is_directory),
        decreases paths.len() - i,
    {
        assert(all.take(i + 1).drop_last() =~= all.take(i as int));
        let clean = clean_path(paths[i].as_str(), project_name);
        if !clean.as_str().is_empty() {
            add_path_to_structure(root, clean.as_str(), is_directory);
        }
        i += 1;
    }
    assert(all.take(i as int) =~= all);
}

/// The position in `s` behind every leading repetition of `p`, from `at`
/// on.
fn skip_repeated(s: &Vec<char>, at: usize, p: &Vec<char>) -> (end: usize)
    requires
        at <= s.len(),
    ensures
        at <= end <= s.len(),
        s@.skip(end as int) == strip_repeated(s@.skip(at as int), p@),
{
    let mut end = at;
    if p.len() == 0 {
        return end;
    }
    while has_prefix_at(s, end, p)
        invariant
            at <= end <= s.len(),
            p.len() > 0,
            strip_repeated(s@.skip(end as int), p@) == strip_repeated(s@.skip(at as int), p@),
        decreases s.len() - end,
    {
        assert(s@.skip(end as int).skip(p@.len() as int) =~= s@.skip(end + p@.len()));
        end = end + p.len();
    }
    end
}

/// A trimmed line without its bullet markers.
pub fn strip_bullet_markers(trimmed: &str) -> (entry: String)
    ensures
        entry@ == strip_bullets(trimmed@),
{
    let chars = chars_of(trimmed);
    let dash: Vec<char> = vec!['-', ' '];
    let star: Vec<char> = vec!['*', ' '];
    assert(chars@.skip(0) =~= chars@);
    let after_dashes = skip_repeated(&chars, 0, &dash);
    let start = skip_repeated(&chars, after_dashes, &star);
    string_of(&chars, start, chars.len())
}

/// Whether an entry, a trimmed line without its bullet markers, is a path:
/// it is not empty and no heading.
pub fn is_path_entry(entry: &str) -> (b: bool)
    ensures
        b == (entry@.len() > 0 && entry@[0] != '#'),
{
    let chars = chars_of(entry);
    chars.len() > 0 && chars[0] != '#'
}

/// Reads one line of a text that lists paths.
fn add_line(root: &mut FileStructure, line: &str, project_name: &str)
    ensures
        final(root)@ == add_text_line(old(root)@, line@, project_name@),
{
    let entry = strip_bullet_markers(line.trim());
    if is_path_entry(entry.as_str()) {
        let clean = clean_path(entry.as_str(), project_name);
        let path = chars_of(clean.as_str());
        if path.len() > 0 {
            let is_directory = path[path.len() - 1] == '/';
            add_path_to_structure(root, clean.as_str(), is_directory);
        }
    }
}

/// Builds the project tree that `json` describes.
///
/// An object is read as two lists of paths, `directories` and `files`: the
/// directories are added first, then the files, each list in its order. Where
/// both lists are empty there is no tree. A string is read as text with one
/// path per line; bullet markers are dropped, headings and blank lines are
/// passed over, and a slash at the end of a line marks a directory. The
/// empty string gives no tree, and so does any other value.
pub fn parse_file_structure(json: &RawValue, project_name: &str) -> (tree: Option<FileStructure>)
    ensures
        tree.deep_view() == file_structure_spec(json@, project_name@),
        json@ is Object && json@.field("directories"@).string_list().len() == 0 && json@.field(
            "files"@,
        ).string_list().len() == 0 ==> tree is None,
        tree matches Some(root) ==> root@.name == project_name@ && root@.is_directory
            && root@.well_formed(),
{
    proof {
        lemma_built_tree_is_well_formed(json@, project_name@);
    }
    if json.is_object() {
        let directories = string_list(json.get("directories"));
        let files = string_list(json.get("files"));
        if files.is_empty() && directories.is_empty() {
            return None;
        }
        let mut root = FileStructure::directory(project_name, "Project root");
        add_all(&mut root, &directories, project_name, true);
        add_all(&mut root, &files, project_name, false);
        return Some(root);
    }
    match json.as_str() {
        Some(text) => {
            if text.is_empty() {
                return None;
            }
            let mut root = FileStructure::directory(project_name, "Project root");
            let lines = text_lines(text);
            let ghost all = lines.deep_view();
            let ghost start = root@;
            let mut i: usize = 0;
            while i < lines.len()
                invariant
                    i <= lines.len(),
                    all == lines.deep_view(),
                    root@ == add_text_lines(start, all.take(i as int), project_name@),
                decreases lines.len() - i,
            {
                assert(all.take(i + 1).drop_last() =~= all.take(i as int));
                add_line(&mut root, lines[i].as_str(), project_name);
                i += 1;
            }
            assert(all.take(i as int) =~= all);
            Some(root)
        },
        None => None,
    }
}

/// What `find_child` returns: the first position at or behind `from` whose
/// child has the name, or -1 where there is none.
pub proof fn lemma_find_child(children: Seq<FileNode>, name: Seq<char>, from: int)
    requires
        0 <= from,
    ensures
        ({
            let at = find_child(children, name, from);
            &&& at == -1 || from <= at < children.len()
            &&& at >= 0 ==> children[at].name == name
            &&& forall|k: int|
                from <= k < (if at >= 0 {
                    at
                } else {
                    children.len() as int
                }) ==> children[k].name != name
        }),
    decreases children.len() - from,
{
    if from < children.len() && children[from].name != name {
        lemma_find_child(children, name, from + 1);
    }
}

/// The first child with the name is the one that `find_child` finds.
pub proof fn lemma_find_child_at(children: Seq<FileNode>, name: Seq<char>, from: int, at: int)
    requires
        0 <= from <= at < children.len(),
        children[at].name == name,
        forall|k: int| from <= k < at ==> children[k].name != name,
    ensures
        find_child(children, name, from) == at,
    decreases at - from,
{
    if from < at {
        lemma_find_child_at(children, name, from + 1, at);
    }
}

/// Adding a path leaves the node itself as it was. Its children keep their
/// places and their names, and at most one child is added, behind them.
pub proof fn lemma_insert_keeps_node(node: FileNode, parts: Seq<Seq<char>>, is_directory: bool)
    ensures
        insert_path(node, parts, is_directory).name == node.name,
        insert_path(node, parts, is_directory).is_directory == node.is_directory,
        insert_path(node, parts, is_directory).description == node.description,
        node.children.len() <= insert_path(node, parts, is_directory).children.len()
            <= node.children.len() + 1,
        forall|i: int|
            0 <= i < node.children.len() ==> (#[trigger] insert_path(
                node,
                parts,
                is_directory,
            ).children[i]).name == node.children[i].name,
    decreases parts.len(),
{
    if parts.len() > 0 {
        let at = find_child(node.children, parts[0], 0);
        if 0 <= at < node.children.len() {
            lemma_insert_keeps_node(node.children[at], parts.drop_first(), is_directory);
        }
    }
}

/// Each segment of a path is a name: not empty and without a slash.
pub proof fn lemma_segments_are_names(path: Seq<char>)
    ensures
        forall|i: int| 0 <= i < segments(path).len() ==> is_segment(#[trigger] segments(path)[i]),
    decreases path.len(),
{
    if path.len() > 0 {
        let n = position_of(path, '/');
        lemma_position_is_first(path, '/');
        let rest = if n < path.len() {
            segments(path.skip(n as int + 1))
        } else {
            Seq::empty()
        };
        if n < path.len() {
            lemma_segments_are_names(path.skip(n as int + 1));
        }
        assert forall|i: int| 0 <= i < segments(path).len() implies is_segment(
            #[trigger] segments(path)[i],
        ) by {
            if n > 0 {
                let head = path.take(n as int);
                assert(segments(path) == seq![head] + rest);
                if i == 0 {
                    assert(segments(path)[0] == head);
                    assert forall|k: int| 0 <= k < head.len() implies head[k] != '/' by {
                        assert(head[k] == path[k]);
                    }
                } else {
                    assert(segments(path)[i] == rest[i - 1]);
                }
            }
        }
    }
}

/// `position_of` lies within the text, nothing before it is `c`, and where
/// it lies inside the text it holds `c`.
pub proof fn lemma_position_is_first(s: Seq<char>, c: char)
    ensures
        position_of(s, c) <= s.len(),
        forall|j: int| 0 <= j < position_of(s, c) ==> s[j] != c,
        position_of(s, c) < s.len() ==> s[position_of(s, c) as int] == c,
    decreases s.len(),
{
    if s.len() > 0 && s[0] != c {
        let rest = s.drop_first();
        lemma_position_is_first(rest, c);
        assert forall|j: int| 0 <= j < position_of(s, c) implies s[j] != c by {
            if j > 0 {
                assert(s[j] == rest[j - 1]);
            }
        }
    }
}

/// Adding a path keeps a tree well formed: no name occurs twice among the
/// children of a node, and each name is one segment.
pub proof fn lemma_insert_keeps_well_formed(
    node: FileNode,
    parts: Seq<Seq<char>>,
    is_directory: bool,
)
    requires
        node.well_formed(),
        forall|i: int| 0 <= i < parts.len() ==> is_segment(#[trigger] parts[i]),
    ensures
        insert_path(node, parts, is_directory).well_formed(),
    decreases parts.len(),
{
    if parts.len() > 0 {
        let rest = parts.drop_first();
        let at = find_child(node.children, parts[0], 0);
        lemma_find_child(node.children, parts[0], 0);
        if 0 <= at < node.children.len() {
            lemma_insert_keeps_well_formed(node.children[at], rest, is_directory);
        } else {
            let fresh = FileNode::leaf(parts[0], parts.len() > 1 || is_directory, Seq::empty());
            lemma_insert_keeps_well_formed(fresh, rest, is_directory);
        }
    }
}

/// Adding a path that is already in the tree changes nothing, whatever kind
/// the second call asks for: so no path gives two nodes of one name.
pub proof fn lemma_insert_twice(node: FileNode, parts: Seq<Seq<char>>, first: bool, second: bool)
    ensures
        insert_path(insert_path(node, parts, first), parts, second) == insert_path(
            node,
            parts,
            first,
        ),
    decreases parts.len(),
{
    if parts.len() > 0 {
        let rest = parts.drop_first();
        let at = find_child(node.children, parts[0], 0);
        let once = insert_path(node, parts, first);
        lemma_find_child(node.children, parts[0], 0);
        if 0 <= at < node.children.len() {
            let child = insert_path(node.children[at], rest, first);
            lemma_find_child_at(once.children, parts[0], 0, at);
            lemma_insert_twice(node.children[at], rest, first, second);
            assert(once.children.update(at, child) =~= once.children);
        } else {
            let fresh = FileNode::leaf(parts[0], parts.len() > 1 || first, Seq::empty());
            let child = insert_path(fresh, rest, first);
            let last = node.children.len() as int;
            lemma_find_child_at(once.children, parts[0], 0, last);
            lemma_insert_twice(fresh, rest, first, second);
            assert(once.children.update(last, child) =~= once.children);
        }
    }
}

/// Adding a list of paths keeps the root and keeps the tree well formed.
pub proof fn lemma_add_paths_well_formed(
    root: FileNode,
    paths: Seq<Seq<char>>,
    project: Seq<char>,
    is_directory: bool,
)
    requires
        root.well_formed(),
    ensures
        add_paths(root, paths, project, is_directory).well_formed(),
        add_paths(root, paths, project, is_directory).name == root.name,
        add_paths(root, paths, project, is_directory).is_directory == root.is_directory,
        add_paths(root, paths, project, is_directory).description == root.description,
    decreases paths.len(),
{
    if paths.len() > 0 {
        let before = add_paths(root, paths.drop_last(), project, is_directory);
        let clean = clean_path_spec(paths.last(), project);
        lemma_add_paths_well_formed(root, paths.drop_last(), project, is_directory);
        lemma_segments_are_names(clean);
        lemma_insert_keeps_well_formed(before, segments(clean), is_directory);
    }
}

/// Reading lines of text keeps the root and keeps the tree well formed.
pub proof fn lemma_add_text_lines_well_formed(
    root: FileNode,
    lines: Seq<Seq<char>>,
    project: Seq<char>,
)
    requires
        root.well_formed(),
    ensures
        add_text_lines(root, lines, project).well_formed(),
        add_text_lines(root, lines, project).name == root.name,
        add_text_lines(root, lines, project).is_directory == root.is_directory,
        add_text_lines(root, lines, project).description == root.description,
    decreases lines.len(),
{
    if lines.len() > 0 {
        let before = add_text_lines(root, lines.drop_last(), project);
        let entry = strip_bullets(trim_spec(lines.last()));
        let clean = clean_path_spec(entry, project);
        lemma_add_text_lines_well_formed(root, lines.drop_last(), project);
        lemma_segments_are_names(clean);
        lemma_insert_keeps_well_formed(before, segments(clean), clean.last() == '/');
    }
}

/// Every tree that is built has one root, a directory named after the
/// project, and is well formed below it.
pub proof fn lemma_built_tree_is_well_formed(json: RawModel, project: Seq<char>)
    ensures
        file_structure_spec(json, project) matches Some(tree) ==> {
            &&& tree.name == project
            &&& tree.is_directory
            &&& tree.description == root_description()
            &&& tree.well_formed()
        },
{
    let root = project_root(project);
    match json {
        RawModel::Object(_) => {
            let directories = json.field("directories"@).string_list();
            let files = json.field("files"@).string_list();
            lemma_add_paths_well_formed(root, directories, project, true);
            lemma_add_paths_well_formed(
                add_paths(root, directories, project, true),
                files,
                project,
                false,
            );
        },
        RawModel::Text(text) => {
            lemma_add_text_lines_well_formed(root, lines_of(text), project);
        },
        _ => {},
    }
}

/// The tree depends on nothing but the value and the project name: two trees
/// built from equal values for one project are equal, however often and in
/// whatever order they are built.
pub proof fn lemma_tree_is_determined(
    a: RawValue,
    b: RawValue,
    project: Seq<char>,
    first: Option<FileStructure>,
    second: Option<FileStructure>,
)
    requires
        a@ == b@,
        first.deep_view() == file_structure_spec(a@, project),
        second.deep_view() == file_structure_spec(b@, project),
    ensures
        first.deep_view() == second.deep_view(),
{
}

/// Empty lists of directories and of files give no tree.
pub proof fn lemma_no_paths_no_tree(project: Seq<char>)
    ensures
        structured_tree(Seq::empty(), Seq::empty(), project) is None,
{
}

} // verus!
