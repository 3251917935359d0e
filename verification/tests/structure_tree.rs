use ralph::models::FileStructure;
use ralph::raw::RawValue;
use ralph::structure::{
    add_path_to_structure, is_path_entry, parse_file_structure, split_segments, strip_bullet_markers,
};

fn texts(items: &[&str]) -> RawValue {
    RawValue::Array(items.iter().map(|s| RawValue::text(s)).collect())
}

fn lists(directories: &[&str], files: &[&str]) -> RawValue {
    RawValue::Object(vec![
        ("directories".to_string(), texts(directories)),
        ("files".to_string(), texts(files)),
    ])
}

fn names(node: &FileStructure) -> Vec<&str> {
    node.children.iter().map(|c| c.name.as_str()).collect()
}

#[test]
fn split_segments_drops_empty_pieces() {
    let chars: Vec<char> = "/a//b.c/".chars().collect();
    assert_eq!(split_segments(&chars), vec!["a".to_string(), "b.c".to_string()]);
    let chars: Vec<char> = "".chars().collect();
    assert!(split_segments(&chars).is_empty());
    let chars: Vec<char> = "///".chars().collect();
    assert!(split_segments(&chars).is_empty());
    let chars: Vec<char> = "one".chars().collect();
    assert_eq!(split_segments(&chars), vec!["one".to_string()]);
}

#[test]
fn directory_then_files_keep_their_order() {
    let mut root = FileStructure::directory("demo", "Project root");
    add_path_to_structure(&mut root, "src", true);
    add_path_to_structure(&mut root, "src/a.x", false);
    add_path_to_structure(&mut root, "src/b.x", false);
    assert_eq!(names(&root), vec!["src"]);
    let src = &root.children[0];
    assert!(src.is_directory);
    assert_eq!(names(src), vec!["a.x", "b.x"]);
    assert!(!src.children[0].is_directory);
    assert!(!src.children[1].is_directory);
    assert!(src.children[0].children.is_empty());
}

#[test]
fn same_path_twice_gives_one_node() {
    let mut root = FileStructure::directory("demo", "Project root");
    add_path_to_structure(&mut root, "src/a.x", false);
    add_path_to_structure(&mut root, "src/a.x", false);
    assert_eq!(names(&root), vec!["src"]);
    assert_eq!(names(&root.children[0]), vec!["a.x"]);
}

#[test]
fn first_writer_wins_on_kind() {
    let mut root = FileStructure::directory("demo", "Project root");
    add_path_to_structure(&mut root, "data", false);
    add_path_to_structure(&mut root, "data", true);
    assert_eq!(root.children.len(), 1);
    assert!(!root.children[0].is_directory);
    add_path_to_structure(&mut root, "data/inner.x", false);
    assert_eq!(root.children.len(), 1);
    assert!(!root.children[0].is_directory);
    assert_eq!(names(&root.children[0]), vec!["inner.x"]);
}

#[test]
fn intermediate_segments_become_directories() {
    let mut root = FileStructure::directory("demo", "Project root");
    add_path_to_structure(&mut root, "a/b/c.x", false);
    let a = &root.children[0];
    let b = &a.children[0];
    let c = &b.children[0];
    assert!(a.is_directory && b.is_directory && !c.is_directory);
    assert_eq!((a.name.as_str(), b.name.as_str(), c.name.as_str()), ("a", "b", "c.x"));
    assert_eq!(a.description, "");
}

#[test]
fn empty_path_adds_nothing() {
    let mut root = FileStructure::directory("demo", "Project root");
    add_path_to_structure(&mut root, "", true);
    add_path_to_structure(&mut root, "//", false);
    assert!(root.children.is_empty());
}

#[test]
fn empty_lists_give_no_tree() {
    assert_eq!(parse_file_structure(&lists(&[], &[]), "demo"), None);
    assert_eq!(parse_file_structure(&RawValue::Object(vec![]), "demo"), None);
    let not_lists = RawValue::Object(vec![
        ("directories".to_string(), RawValue::text("src")),
        ("files".to_string(), RawValue::Unsigned(3)),
    ]);
    assert_eq!(parse_file_structure(&not_lists, "demo"), None);
}

#[test]
fn other_values_give_no_tree() {
    assert_eq!(parse_file_structure(&RawValue::Null, "demo"), None);
    assert_eq!(parse_file_structure(&RawValue::Bool(true), "demo"), None);
    assert_eq!(parse_file_structure(&texts(&["src"]), "demo"), None);
    assert_eq!(parse_file_structure(&RawValue::text(""), "demo"), None);
}

#[test]
fn hello_world_tree() {
    let json = lists(&["src", "tests"], &["Cargo.toml", "src/main.rs", "tests/cli.rs"]);
    let root = parse_file_structure(&json, "hello-world").unwrap();
    assert_eq!(root.name, "hello-world");
    assert!(root.is_directory);
    assert_eq!(root.description, "Project root");
    assert_eq!(names(&root), vec!["src", "tests", "Cargo.toml"]);
    assert!(root.children[0].is_directory);
    assert_eq!(names(&root.children[0]), vec!["main.rs"]);
    assert!(!root.children[0].children[0].is_directory);
    assert!(root.children[1].is_directory);
    assert_eq!(names(&root.children[1]), vec!["cli.rs"]);
    assert!(!root.children[1].children[0].is_directory);
    assert!(!root.children[2].is_directory);
}

#[test]
fn tree_is_the_same_on_every_call() {
    let json = lists(&["b", "a", "./a/z"], &["demo/a/y", "b/x", " c "]);
    let first = parse_file_structure(&json, "demo").unwrap();
    let second = parse_file_structure(&json, "demo").unwrap();
    assert_eq!(first, second);
    assert_eq!(names(&first), vec!["b", "a", "c"]);
    assert_eq!(names(&first.children[1]), vec!["z", "y"]);
    assert!(first.children[1].children[0].is_directory);
}

#[test]
fn paths_that_reduce_to_nothing_are_skipped() {
    let json = lists(&["./", "demo/", "  "], &["a.x"]);
    let root = parse_file_structure(&json, "demo").unwrap();
    assert_eq!(names(&root), vec!["a.x"]);
    let only_empty = lists(&["./"], &[]);
    let root = parse_file_structure(&only_empty, "demo").unwrap();
    assert!(root.children.is_empty());
}

#[test]
fn entries_that_are_not_strings_are_ignored() {
    let json = RawValue::Object(vec![(
        "files".to_string(),
        RawValue::Array(vec![RawValue::Unsigned(1), RawValue::text("a.x"), RawValue::Null]),
    )]);
    let root = parse_file_structure(&json, "demo").unwrap();
    assert_eq!(names(&root), vec!["a.x"]);
}

#[test]
fn text_is_read_line_by_line() {
    let text = "# Layout\n\n- src/\n- src/main.x\n* docs/\r\n  README.md  \n- - nested/deep.x\n#notes\n";
    let root = parse_file_structure(&RawValue::text(text), "demo").unwrap();
    assert_eq!(root.name, "demo");
    assert_eq!(names(&root), vec!["src", "docs", "README.md", "nested"]);
    assert!(root.children[0].is_directory);
    assert_eq!(names(&root.children[0]), vec!["main.x"]);
    assert!(root.children[1].is_directory);
    assert!(!root.children[2].is_directory);
    assert_eq!(names(&root.children[3]), vec!["deep.x"]);
}

#[test]
fn text_without_paths_gives_an_empty_tree() {
    let root = parse_file_structure(&RawValue::text("# only a heading\n\n"), "demo").unwrap();
    assert_eq!(root.name, "demo");
    assert!(root.children.is_empty());
}

#[test]
fn text_lines_are_sanitised() {
    let text = "- ./demo/src/lib.x\n- demo/\n";
    let root = parse_file_structure(&RawValue::text(text), "demo").unwrap();
    assert_eq!(names(&root), vec!["src"]);
    assert_eq!(names(&root.children[0]), vec!["lib.x"]);
}

#[test]
fn bullet_markers_are_stripped_in_order() {
    assert_eq!(strip_bullet_markers("- src/"), "src/");
    assert_eq!(strip_bullet_markers("* src/"), "src/");
    assert_eq!(strip_bullet_markers("- - * * a"), "a");
    assert_eq!(strip_bullet_markers("* - a"), "- a");
    assert_eq!(strip_bullet_markers("-a"), "-a");
    assert_eq!(strip_bullet_markers("- "), "");
    assert_eq!(strip_bullet_markers(""), "");
    assert!(is_path_entry("src/"));
    assert!(!is_path_entry(""));
    assert!(!is_path_entry("# Layout"));
    assert!(is_path_entry(" #"));
}
