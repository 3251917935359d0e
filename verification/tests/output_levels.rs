use ralph::models::DebugLevel;
use ralph::output::RalphOutput;

#[test]
fn test_debug_level_checks() {
    let minimal = RalphOutput::new(DebugLevel::Minimal);
    assert!(minimal.level().is_minimal());
    assert!(!minimal.level().is_normal());
    assert!(!minimal.level().is_verbose());
    assert!(!minimal.level().is_debug());

    let normal = RalphOutput::new(DebugLevel::Normal);
    assert!(!normal.level().is_minimal());
    assert!(normal.level().is_normal());
    assert!(!normal.level().is_verbose());
    assert!(!normal.level().is_debug());

    let verbose = RalphOutput::new(DebugLevel::Verbose);
    assert!(!verbose.level().is_minimal());
    assert!(verbose.level().is_normal());
    assert!(verbose.level().is_verbose());
    assert!(!verbose.level().is_debug());

    let debug = RalphOutput::new(DebugLevel::Debug);
    assert!(!debug.level().is_minimal());
    assert!(debug.level().is_normal());
    assert!(debug.level().is_verbose());
    assert!(debug.level().is_debug());
}

#[test]
fn test_output_default() {
    let output = RalphOutput::default();
    assert_eq!(output.level(), DebugLevel::Normal);
}
