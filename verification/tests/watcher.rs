use cargo_serve::watcher::{
    event_calls_for_rebuild, ignore_rules, path_ignored, ignore_patterns, should_rebuild, target_ignore_pattern, ChangeKind, Debounce, DebounceAction,
    DebounceEvent,
};

#[test]
fn custom_target_dir_inside_the_workspace_is_ignored() {
    assert_eq!(
        target_ignore_pattern("/ws", "/ws/build/out"),
        Some("/build/out/".to_string())
    );
}

#[test]
fn target_dir_outside_the_workspace_needs_no_pattern() {
    assert_eq!(target_ignore_pattern("/ws", "/elsewhere/target"), None);
}

#[test]
fn target_dir_equal_to_the_workspace_root_is_not_ignored() {
    assert_eq!(target_ignore_pattern("/ws", "/ws"), None);
}

#[test]
fn sibling_directory_sharing_a_prefix_is_not_inside() {
    assert_eq!(target_ignore_pattern("/ws", "/wsx/target"), None);
}

#[test]
fn ignore_patterns_add_defaults_target_and_extras() {
    let extra = vec!["docs".to_string()];
    assert_eq!(
        ignore_patterns("/ws", "/ws/out", &extra),
        vec!["target/", ".jj/", ".git/", "/out/", "docs"]
    );
    assert_eq!(
        ignore_patterns("/ws", "/ws/target", &Vec::new()),
        vec!["target/", ".jj/", ".git/", "/target/"]
    );
    assert_eq!(
        ignore_patterns("/ws", "/elsewhere", &Vec::new()),
        vec!["target/", ".jj/", ".git/"]
    );
}

#[test]
fn only_unignored_changes_trigger_a_rebuild() {
    assert!(should_rebuild(ChangeKind::Modify, &vec![true, false]));
    assert!(!should_rebuild(ChangeKind::Modify, &vec![true, true]));
    assert!(!should_rebuild(ChangeKind::Create, &Vec::new()));
    assert!(!should_rebuild(ChangeKind::Other, &vec![false]));
    assert!(should_rebuild(ChangeKind::Remove, &vec![false]));
}

#[test]
fn a_burst_of_changes_notifies_once() {
    let mut state = Debounce::Idle;
    let mut notified = 0;
    let mut events = vec![DebounceEvent::Change; 5];
    events.push(DebounceEvent::QuietPeriodElapsed);
    events.push(DebounceEvent::QuietPeriodElapsed);
    for event in events {
        let (next, action) = state.step(event);
        if action == DebounceAction::Notify {
            notified += 1;
        }
        state = next;
    }
    assert_eq!(notified, 1);
    assert_eq!(state, Debounce::Idle);
}

#[test]
fn debounce_restarts_its_timer_and_stops_when_closed() {
    let (s1, a1) = Debounce::Idle.step(DebounceEvent::Change);
    assert_eq!(a1, DebounceAction::StartTimer);
    let (s2, a2) = s1.step(DebounceEvent::Change);
    assert_eq!(a2, DebounceAction::RestartTimer);
    let (s3, a3) = s2.step(DebounceEvent::InputClosed);
    assert_eq!(a3, DebounceAction::Stop);
    assert_eq!(s3.step(DebounceEvent::Change), (Debounce::Closed, DebounceAction::Nothing));
}

#[test]
fn ignore_rules_skip_build_output_but_not_sources() {
    let (rules, problem) = ignore_rules("/ws", "/ws/out", &vec!["docs".to_string()]);
    assert!(problem.is_none());
    assert!(path_ignored(&rules, "/ws", "/ws/target/debug/app", false));
    assert!(path_ignored(&rules, "/ws", "/ws/out/debug/app", false));
    assert!(path_ignored(&rules, "/ws", "/ws/.git/index", false));
    assert!(path_ignored(&rules, "/ws", "/ws/docs/guide.md", false));
    assert!(!path_ignored(&rules, "/ws", "/ws/src/main.rs", false));
    // Paths outside the workspace, e.g. under an extra watched directory, count.
    assert!(!path_ignored(&rules, "/ws", "/templates/index.html", false));

    let paths = vec!["/ws/target/x".to_string(), "/ws/src/lib.rs".to_string()];
    assert!(event_calls_for_rebuild(&rules, "/ws", ChangeKind::Modify, &paths, &vec![false, false]));
    let only_output = vec!["/ws/target/x".to_string()];
    assert!(!event_calls_for_rebuild(&rules, "/ws", ChangeKind::Modify, &only_output, &vec![false]));
    assert!(!event_calls_for_rebuild(&rules, "/ws", ChangeKind::Other, &paths, &vec![false, false]));

    let all_ignored = vec![
        "/ws/target/debug/app".to_string(),
        "/ws/.git/index".to_string(),
        "/ws/docs/guide.md".to_string(),
    ];
    assert!(!event_calls_for_rebuild(
        &rules,
        "/ws",
        ChangeKind::Create,
        &all_ignored,
        &vec![false, false, false]
    ));
    let outside = vec!["/ws/target/x".to_string(), "/templates/index.html".to_string()];
    assert!(event_calls_for_rebuild(&rules, "/ws", ChangeKind::Remove, &outside, &vec![false, false]));
}
