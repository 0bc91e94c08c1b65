use reload::debounce::batch_count;
use reload::errors::ConfigError;
use reload::glob::PathMatcher;
use reload::rules::{build_rules, Action, RawRule, WatchRule};
use reload::supervisor::{ProcessOp, ProcessSupervisor};
use reload::watch::{build_loops, WatchAction, WatchEvent};

fn raw(path: &str, command: &[&str], working_directory: Option<&str>, pattern: &str) -> RawRule {
    RawRule {
        path: path.to_string(),
        command: command.iter().map(|t| t.to_string()).collect(),
        working_directory: working_directory.map(|d| d.to_string()),
        pattern: pattern.to_string(),
    }
}

#[test]
fn pattern_round_trip() {
    let matcher = PathMatcher::compile("*.txt".to_string()).unwrap();
    assert!(matcher.is_match("/watched/dir/a.txt"));
    assert!(!matcher.is_match("/watched/dir/a.bin"));
}

#[test]
fn invalid_pattern_is_config_error() {
    let r = PathMatcher::compile("a[".to_string());
    assert!(matches!(r, Err(ConfigError::InvalidPattern)));
}

#[test]
fn deeply_nested_alternates_are_rejected_not_fatal() {
    // The glob parser accepts arbitrarily nested alternates, but the regex
    // they compile into has a fixed nesting limit; compilation must surface
    // that as a configuration error, not a crash.
    let pattern = format!("{}{}", "{a".repeat(300), "}".repeat(300));
    let r = PathMatcher::compile(pattern.clone());
    assert!(matches!(r, Err(ConfigError::InvalidPattern)));

    let rules = build_rules(&"0".to_string(), vec![raw("./src", &["echo"], None, &pattern)]);
    assert!(matches!(rules, Err(ConfigError::InvalidPattern)));
}

#[test]
fn long_literal_patterns_compile_and_match() {
    let long = "a".repeat(5000);
    let matcher = PathMatcher::compile(long.clone()).unwrap();
    assert!(matcher.is_match(&long));
    assert!(!matcher.is_match("b"));
}

#[test]
fn empty_command_rejected() {
    let r = Action::from_tokens(Vec::new());
    assert!(matches!(r, Err(ConfigError::MissingCommand)));

    let rule = WatchRule::new("./src".to_string(), Vec::new(), None, "*.rs".to_string());
    assert!(matches!(rule, Err(ConfigError::MissingCommand)));

    let rules = build_rules(&"0".to_string(), vec![raw("./src", &[], None, "*.rs")]);
    assert!(matches!(rules, Err(ConfigError::MissingCommand)));
}

#[test]
fn from_tokens_splits_command_and_arguments() {
    let action = Action::from_tokens(vec!["echo".to_string(), "hi".to_string(), "there".to_string()])
        .unwrap();
    assert_eq!(action.command, "echo");
    assert_eq!(action.args, vec!["hi".to_string(), "there".to_string()]);
}

#[test]
fn unsupported_version_rejected() {
    let rules = build_rules(&"1".to_string(), vec![raw("./src", &["echo"], None, "*.rs")]);
    assert!(matches!(rules, Err(ConfigError::UnsupportedVersion)));
}

#[test]
fn first_invalid_rule_decides_the_error() {
    let rules = build_rules(
        &"0".to_string(),
        vec![
            raw("./a", &["echo"], None, "*.rs"),
            raw("./b", &["echo"], None, "b["),
        ],
    );
    assert!(matches!(rules, Err(ConfigError::InvalidPattern)));

    let rules = build_rules(
        &"0".to_string(),
        vec![
            raw("./a", &[], None, "*.rs"),
            raw("./b", &["echo"], None, "b["),
        ],
    );
    assert!(matches!(rules, Err(ConfigError::MissingCommand)));
}

#[test]
fn valid_rules_carry_their_configuration() {
    let rules = build_rules(
        &"0".to_string(),
        vec![
            raw("./src", &["echo", "hi"], Some("/tmp"), "*.rs"),
            raw("./doc", &["make"], None, "*.md"),
        ],
    )
    .unwrap();
    assert_eq!(rules.len(), 2);
    assert_eq!(rules[0].path, "./src");
    assert_eq!(rules[0].action.command, "echo");
    assert_eq!(rules[0].action.args, vec!["hi".to_string()]);
    assert_eq!(rules[0].working_directory.as_deref(), Some("/tmp"));
    assert!(rules[0].matcher.is_match("lib.rs"));
    assert!(!rules[0].matcher.is_match("lib.md"));
    assert_eq!(rules[1].action.command, "make");
    assert!(rules[1].action.args.is_empty());
    assert_eq!(rules[1].working_directory, None);
}

#[test]
fn matching_batch_demands_one_restart() {
    let rules = build_rules(&"0".to_string(), vec![raw("./src", &["echo"], None, "*.rs")]).unwrap();
    let mut loops = build_loops(rules);
    let mut watch_loop = loops.remove(0);
    watch_loop.record_spawn(1);

    let batch = WatchEvent::Batch {
        paths: vec![
            Some("./src/notes.txt".to_string()),
            Some("./src/lib.rs".to_string()),
        ],
    };
    assert_eq!(watch_loop.handle_event(&batch), WatchAction::Restart);

    let no_match = WatchEvent::Batch { paths: vec![Some("./src/notes.txt".to_string())] };
    assert_eq!(watch_loop.handle_event(&no_match), WatchAction::Ignore);

    let empty = WatchEvent::Batch { paths: Vec::new() };
    assert_eq!(watch_loop.handle_event(&empty), WatchAction::Ignore);
}

#[test]
fn unrepresentable_paths_do_not_abort_the_batch() {
    let rules = build_rules(&"0".to_string(), vec![raw("./src", &["echo"], None, "*.rs")]).unwrap();
    let mut loops = build_loops(rules);
    let mut watch_loop = loops.remove(0);
    watch_loop.record_spawn(1);

    let mixed = WatchEvent::Batch { paths: vec![None, Some("./src/lib.rs".to_string())] };
    assert_eq!(watch_loop.handle_event(&mixed), WatchAction::Restart);

    let only_raw = WatchEvent::Batch { paths: vec![None] };
    assert_eq!(watch_loop.handle_event(&only_raw), WatchAction::Ignore);
}

#[test]
fn notify_errors_are_ignored_and_stream_end_finishes() {
    let rules = build_rules(&"0".to_string(), vec![raw("./src", &["echo"], None, "*.rs")]).unwrap();
    let mut loops = build_loops(rules);
    let mut watch_loop = loops.remove(0);
    watch_loop.record_spawn(1);

    assert_eq!(watch_loop.handle_event(&WatchEvent::NotifyError), WatchAction::Ignore);
    assert_eq!(watch_loop.handle_event(&WatchEvent::StreamEnd), WatchAction::Finish);
}

#[test]
fn debounce_window_collapses_nearby_notifications() {
    assert_eq!(batch_count(&vec![0, 100], 200), 1);
    assert_eq!(batch_count(&vec![0, 300], 200), 2);
    assert_eq!(batch_count(&vec![0, 150, 300], 200), 1);
    assert_eq!(batch_count(&vec![0, 100, 600, 650], 200), 2);
    assert_eq!(batch_count(&Vec::new(), 200), 0);
}

#[test]
fn supervisor_kills_and_reaps_before_spawning() {
    let action = Action::from_tokens(vec!["echo".to_string(), "hi".to_string()]).unwrap();
    let mut supervisor = ProcessSupervisor::new(action, None);
    assert!(!supervisor.is_running());
    assert_eq!(supervisor.next_op(), ProcessOp::Spawn);

    supervisor.record_spawn(7);
    assert!(supervisor.is_running());
    assert_eq!(supervisor.next_op(), ProcessOp::KillAndReap { handle: 7 });

    supervisor.record_exit();
    assert!(!supervisor.is_running());
    assert_eq!(supervisor.next_op(), ProcessOp::Spawn);

    supervisor.record_spawn(8);
    assert_eq!(supervisor.next_op(), ProcessOp::KillAndReap { handle: 8 });
}

#[test]
fn every_rule_gets_its_own_armed_loop() {
    let rules = build_rules(
        &"0".to_string(),
        vec![
            raw("./src", &["echo", "a"], None, "*.rs"),
            raw("./doc", &["echo", "b"], None, "*.md"),
        ],
    )
    .unwrap();
    let loops = build_loops(rules);
    assert_eq!(loops.len(), 2);
    assert_eq!(loops[0].watch_path().as_str(), "./src");
    assert_eq!(loops[1].watch_path().as_str(), "./doc");
    for watch_loop in &loops {
        assert!(!watch_loop.is_started());
        assert!(!watch_loop.is_running());
        assert_eq!(watch_loop.next_op(), ProcessOp::Spawn);
    }
}

#[test]
fn one_rule_scenario_restarts_only_on_matching_change() {
    let rules = build_rules(
        &"0".to_string(),
        vec![raw("./src", &["echo", "hi"], None, "*.rs")],
    )
    .unwrap();
    let mut loops = build_loops(rules);
    let mut watch_loop = loops.remove(0);
    assert_eq!(watch_loop.action().command, "echo");
    assert_eq!(watch_loop.action().args, vec!["hi".to_string()]);

    // On startup the initial restart spawns once, unconditionally.
    assert_eq!(watch_loop.next_op(), ProcessOp::Spawn);
    watch_loop.record_spawn(1);
    assert!(watch_loop.is_started());

    // A change to a matching path replaces the process: the predecessor is
    // killed and reaped before the second spawn.
    let change = WatchEvent::Batch { paths: vec![Some("./src/lib.rs".to_string())] };
    assert_eq!(watch_loop.handle_event(&change), WatchAction::Restart);
    assert_eq!(watch_loop.next_op(), ProcessOp::KillAndReap { handle: 1 });
    watch_loop.record_exit();
    assert_eq!(watch_loop.next_op(), ProcessOp::Spawn);
    watch_loop.record_spawn(2);

    // A change to a non-matching path spawns nothing.
    let other = WatchEvent::Batch { paths: vec![Some("./src/README.md".to_string())] };
    assert_eq!(watch_loop.handle_event(&other), WatchAction::Ignore);
    assert_eq!(watch_loop.next_op(), ProcessOp::KillAndReap { handle: 2 });
}
