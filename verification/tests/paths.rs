use ralph::path::{clean_path, has_redundant_project_prefix, strip_redundant_prefixes};

#[test]
fn clean_path_strips_dot_slash() {
    assert_eq!(clean_path("./src/main.x", "demo"), "src/main.x");
}

#[test]
fn clean_path_strips_project_prefix() {
    assert_eq!(clean_path("demo/src/main.x", "demo"), "src/main.x");
}

#[test]
fn clean_path_strips_literal_name_with_space() {
    assert_eq!(clean_path("Demo App/x", "Demo App"), "x");
}

#[test]
fn clean_path_strips_lower_kebab_form() {
    assert_eq!(clean_path("demo-app/x", "Demo App"), "x");
}

#[test]
fn clean_path_keeps_clean_path() {
    assert_eq!(clean_path("src/main.x", "demo"), "src/main.x");
    assert_eq!(clean_path("Cargo.toml", "hello-world"), "Cargo.toml");
}

#[test]
fn clean_path_trims_white_space() {
    assert_eq!(clean_path("  \tsrc/lib.x \n", "demo"), "src/lib.x");
    assert_eq!(clean_path("\u{3000}src\u{a0}", "demo"), "src");
}

#[test]
fn clean_path_strips_each_prefix_once() {
    assert_eq!(clean_path("././a", "demo"), "./a");
    assert_eq!(clean_path("./demo/demo/a", "demo"), "a");
    assert_eq!(clean_path("demo/demo/demo/a", "demo"), "demo/a");
}

#[test]
fn clean_path_may_leave_nothing() {
    assert_eq!(clean_path("", "demo"), "");
    assert_eq!(clean_path("   ", "demo"), "");
    assert_eq!(clean_path("./", "demo"), "");
    assert_eq!(clean_path("demo/", "demo"), "");
}

#[test]
fn clean_path_lowers_by_unicode() {
    assert_eq!(clean_path("über-app/x", "ÜBER App"), "x");
}

#[test]
fn strip_redundant_prefixes_takes_the_lowered_name() {
    assert_eq!(strip_redundant_prefixes("my-app/x", "My App", "my app"), "x");
    assert_eq!(strip_redundant_prefixes("my-app/x", "My App", "other"), "my-app/x");
}

#[test]
fn redundant_prefix_is_reported() {
    assert!(has_redundant_project_prefix("demo/src/main.x", "demo"));
    assert!(has_redundant_project_prefix("./demo-app/x", "Demo App"));
    assert!(!has_redundant_project_prefix("./src/main.x", "demo"));
    assert!(!has_redundant_project_prefix("src/demo/x", "demo"));
}
