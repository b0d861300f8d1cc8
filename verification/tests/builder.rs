use std::path::PathBuf;

use cargo_serve::builder::{
    cargo_command_args, choose_stale_binary, diagnostic_text, expected_binary_path,
    last_artifact, parse_compiler_artifact, stale_binary_candidates, staging_failure,
    staging_plan, staging_tmp_name, BuildAction, BuildEvent, BuildPhase, StaleBinary,
    StagingStep,
};
use cargo_serve::cli::{CargoArgs, ServeArgs};
use cargo_serve::error::Error;
use cargo_serve::project::{ProjectInfo, TargetKindSelector};

fn parse_bin(json: &str) -> Option<PathBuf> {
    parse_compiler_artifact(json, "myapp", TargetKindSelector::Bin).map(PathBuf::from)
}

fn test_project(target_kind: TargetKindSelector) -> ProjectInfo {
    ProjectInfo {
        package_name: "myapp".into(),
        target_name: "myapp".into(),
        target_kind,
        target_dir: "/tmp/myapp/target".into(),
        workspace_root: "/tmp/myapp".into(),
    }
}

#[test]
fn staging_tmp_name_is_unique_per_process() {
    assert_ne!(
        staging_tmp_name("app", 100),
        staging_tmp_name("app", 200),
        "different processes must use distinct temp files"
    );
}

#[test]
fn staging_tmp_name_is_hidden_and_distinct_from_dest() {
    let name = staging_tmp_name("app", 42);
    assert!(name.starts_with('.'), "temp file should be hidden");
    assert_ne!(name, "app", "temp must not collide with the staged binary");
}

#[test]
fn staging_tmp_name_carries_the_pid_in_decimal() {
    assert_eq!(staging_tmp_name("app", 42), ".app.42.new");
    assert_eq!(staging_tmp_name("app", 0), ".app.0.new");
    assert_eq!(staging_tmp_name("srv", 4294967295), ".srv.4294967295.new");
}

#[test]
fn parse_artifact_success() {
    let json = r#"{"reason":"compiler-artifact","package_id":"myapp 0.1.0","manifest_path":"/tmp/myapp/Cargo.toml","target":{"kind":["bin"],"name":"myapp","src_path":"/tmp/myapp/src/main.rs"},"executable":"/tmp/myapp/target/debug/myapp","filenames":["/tmp/myapp/target/debug/myapp"],"fresh":false}"#;
    assert_eq!(
        parse_bin(json),
        Some(PathBuf::from("/tmp/myapp/target/debug/myapp"))
    );
}

#[test]
fn parse_artifact_wrong_name() {
    let json = r#"{"reason":"compiler-artifact","target":{"kind":["bin"],"name":"other"},"executable":"/tmp/other"}"#;
    assert_eq!(parse_bin(json), None);
}

#[test]
fn parse_artifact_lib_target() {
    let json = r#"{"reason":"compiler-artifact","target":{"kind":["lib"],"name":"myapp"},"executable":null}"#;
    assert_eq!(parse_bin(json), None);
}

#[test]
fn parse_non_artifact_message() {
    let json = r#"{"reason":"build-script-executed","package_id":"foo"}"#;
    assert_eq!(parse_bin(json), None);
}

#[test]
fn parse_invalid_json() {
    assert_eq!(parse_bin("not json"), None);
}

#[test]
fn parse_artifact_distinguishes_example_from_binary() {
    let example = r#"{"reason":"compiler-artifact","target":{"kind":["example"],"name":"myapp"},"executable":"/tmp/myapp/target/debug/examples/myapp"}"#;
    assert_eq!(parse_bin(example), None);
    assert_eq!(
        parse_compiler_artifact(example, "myapp", TargetKindSelector::Example).map(PathBuf::from),
        Some(PathBuf::from("/tmp/myapp/target/debug/examples/myapp"))
    );
}

#[test]
fn parse_artifact_accepts_a_target_with_several_kinds() {
    let json = r#"{"reason":"compiler-artifact","target":{"kind":["lib","bin"],"name":"myapp"},"executable":"/x/myapp"}"#;
    assert_eq!(parse_bin(json), Some(PathBuf::from("/x/myapp")));
}

#[test]
fn parse_artifact_without_executable_is_nothing() {
    let json = r#"{"reason":"compiler-artifact","target":{"kind":["bin"],"name":"myapp"}}"#;
    assert_eq!(parse_bin(json), None);
}

#[test]
fn diagnostics_print_only_rendered_compiler_messages() {
    let msg = r#"{"reason":"compiler-message","message":{"rendered":"warning: unused\n"}}"#;
    assert_eq!(diagnostic_text(msg), Some("warning: unused\n".to_string()));
    let artifact = r#"{"reason":"compiler-artifact","message":{"rendered":"x"}}"#;
    assert_eq!(diagnostic_text(artifact), None);
    assert_eq!(diagnostic_text("garbage"), None);
    assert_eq!(diagnostic_text(r#"{"reason":"compiler-message"}"#), None);
}

#[test]
fn expected_binary_path_debug() {
    assert_eq!(
        PathBuf::from(expected_binary_path(
            &test_project(TargetKindSelector::Bin),
            &CargoArgs::default()
        )),
        PathBuf::from("/tmp/myapp/target/debug/myapp")
    );
}

#[test]
fn expected_binary_path_custom_profile() {
    let args = CargoArgs {
        profile: Some("fast-dev".into()),
        ..Default::default()
    };
    assert_eq!(
        PathBuf::from(expected_binary_path(&test_project(TargetKindSelector::Bin), &args)),
        PathBuf::from("/tmp/myapp/target/fast-dev/myapp")
    );
}

#[test]
fn expected_binary_path_cross_compiled_nests_under_the_triple() {
    let args = CargoArgs {
        target: Some("aarch64-unknown-linux-gnu".into()),
        release: true,
        ..Default::default()
    };
    assert_eq!(
        PathBuf::from(expected_binary_path(&test_project(TargetKindSelector::Bin), &args)),
        PathBuf::from("/tmp/myapp/target/aarch64-unknown-linux-gnu/release/myapp")
    );
}

#[test]
fn expected_binary_path_example_nests_under_examples() {
    assert_eq!(
        PathBuf::from(expected_binary_path(
            &test_project(TargetKindSelector::Example),
            &CargoArgs::default()
        )),
        PathBuf::from("/tmp/myapp/target/debug/examples/myapp")
    );
}

#[test]
fn expected_binary_path_release() {
    let args = CargoArgs {
        release: true,
        ..Default::default()
    };
    assert_eq!(
        PathBuf::from(expected_binary_path(&test_project(TargetKindSelector::Bin), &args)),
        PathBuf::from("/tmp/myapp/target/release/myapp")
    );
}

#[test]
fn staging_plan_places_temp_and_dest_in_the_staging_dir() {
    let plan = staging_plan(&test_project(TargetKindSelector::Bin), 7);
    assert_eq!(plan.dir, "/tmp/myapp/target/.cargo-serve");
    assert_eq!(plan.temp, "/tmp/myapp/target/.cargo-serve/.myapp.7.new");
    assert_eq!(plan.dest, "/tmp/myapp/target/.cargo-serve/myapp");
}

#[test]
fn staging_failures_name_the_path_each_step_wrote() {
    let plan = staging_plan(&test_project(TargetKindSelector::Bin), 7);
    let path_of = |step| match staging_failure(&plan, step, "boom".to_string()) {
        Error::StagingFailed { path, source } => {
            assert_eq!(source, "boom");
            path
        }
        other => panic!("unexpected {other:?}"),
    };
    assert_eq!(path_of(StagingStep::CreateDir), plan.dir);
    assert_eq!(path_of(StagingStep::CopyToTemp), plan.temp);
    assert_eq!(path_of(StagingStep::MakeExecutable), plan.temp);
    assert_eq!(path_of(StagingStep::Rename), plan.dest);
}

#[test]
fn cargo_command_selects_the_target_and_forwards_flags() {
    let args = ServeArgs {
        cargo: CargoArgs {
            release: true,
            ..Default::default()
        },
        ..Default::default()
    };
    assert_eq!(
        cargo_command_args("build", &test_project(TargetKindSelector::Example), &args),
        vec![
            "build",
            "--example",
            "myapp",
            "--package",
            "myapp",
            "--message-format=json",
            "--release"
        ]
    );
}

fn drive(no_check: bool, events: Vec<BuildEvent>) -> Vec<BuildAction> {
    let project = test_project(TargetKindSelector::Bin);
    let args = ServeArgs {
        no_check,
        ..Default::default()
    };
    let mut phase = BuildPhase::Idle;
    let mut actions = Vec::new();
    for event in events {
        let (next, action) = phase.advance(event, &project, &args);
        phase = next;
        actions.push(action);
    }
    actions
}

#[test]
fn pipeline_checks_builds_locates_and_stages() {
    let actions = drive(
        false,
        vec![
            BuildEvent::Begin,
            BuildEvent::CheckExited { success: true },
            BuildEvent::BuildExited {
                success: true,
                artifact: Some("/a/myapp".into()),
            },
            BuildEvent::BinaryLocated { exists: true },
            BuildEvent::Staged {
                result: Ok("/s/myapp".into()),
            },
        ],
    );
    assert!(matches!(actions[0], BuildAction::RunCheck));
    assert!(matches!(actions[1], BuildAction::RunBuild));
    assert!(
        matches!(&actions[2], BuildAction::LocateBinary { path, fallback: false } if path == "/a/myapp")
    );
    assert!(matches!(&actions[3], BuildAction::Stage { source } if source == "/a/myapp"));
    assert!(matches!(&actions[4], BuildAction::Finish(Ok(p)) if p == "/s/myapp"));
}

#[test]
fn pipeline_stops_at_a_failed_check() {
    let actions = drive(
        false,
        vec![
            BuildEvent::Begin,
            BuildEvent::CheckExited { success: false },
            BuildEvent::BuildExited {
                success: true,
                artifact: None,
            },
        ],
    );
    assert!(matches!(actions[1], BuildAction::Finish(Err(Error::CheckFailed))));
    assert!(matches!(actions[2], BuildAction::Ignore));
}

#[test]
fn pipeline_without_check_falls_back_to_the_expected_path() {
    let actions = drive(
        true,
        vec![
            BuildEvent::Begin,
            BuildEvent::BuildExited {
                success: true,
                artifact: None,
            },
            BuildEvent::BinaryLocated { exists: false },
        ],
    );
    assert!(matches!(actions[0], BuildAction::RunBuild));
    assert!(
        matches!(&actions[1], BuildAction::LocateBinary { path, fallback: true } if path == "/tmp/myapp/target/debug/myapp")
    );
    assert!(matches!(
        actions[2],
        BuildAction::Finish(Err(Error::BinaryNotFoundInOutput))
    ));
}

#[test]
fn pipeline_reports_a_failed_build_and_command_errors() {
    let failed = drive(
        true,
        vec![
            BuildEvent::Begin,
            BuildEvent::BuildExited {
                success: false,
                artifact: Some("/a".into()),
            },
        ],
    );
    assert!(matches!(failed[1], BuildAction::Finish(Err(Error::BuildFailed))));
    let io = drive(
        false,
        vec![
            BuildEvent::Begin,
            BuildEvent::CommandFailed {
                cause: "no cargo".into(),
            },
        ],
    );
    assert!(matches!(&io[1], BuildAction::Finish(Err(Error::Io(c))) if c == "no cargo"));
}

fn artifact_line(name: &str, executable: &str) -> String {
    format!(
        r#"{{"reason":"compiler-artifact","target":{{"kind":["bin"],"name":"{name}"}},"executable":"{executable}"}}"#
    )
}

#[test]
fn the_last_reported_executable_wins() {
    let lines = vec![
        artifact_line("myapp", "/t/debug/deps/first"),
        r#"{"reason":"build-finished","success":true}"#.to_string(),
        artifact_line("other", "/t/debug/other"),
        artifact_line("myapp", "/t/debug/myapp"),
        "not json".to_string(),
        artifact_line("other", "/t/debug/other2"),
    ];
    assert_eq!(
        last_artifact(&lines, "myapp", TargetKindSelector::Bin),
        Some("/t/debug/myapp".to_string())
    );
}

#[test]
fn output_without_the_target_reports_nothing() {
    let lines = vec![
        artifact_line("other", "/t/debug/other"),
        r#"{"reason":"compiler-message","message":{"rendered":"warning"}}"#.to_string(),
    ];
    assert_eq!(last_artifact(&lines, "myapp", TargetKindSelector::Bin), None);
    assert_eq!(last_artifact(&Vec::new(), "myapp", TargetKindSelector::Bin), None);
}

#[test]
fn eager_start_prefers_the_staged_copy_then_cargo_output() {
    let project = test_project(TargetKindSelector::Bin);
    let args = CargoArgs::default();
    let (staged, output) = stale_binary_candidates(&project, &args);
    assert_eq!(staged, "/tmp/myapp/target/.cargo-serve/myapp");
    assert_eq!(output, "/tmp/myapp/target/debug/myapp");
    assert!(matches!(
        choose_stale_binary(&project, &args, true, true),
        StaleBinary::Staged(p) if p == staged
    ));
    assert!(matches!(
        choose_stale_binary(&project, &args, false, true),
        StaleBinary::CargoOutput(p) if p == output
    ));
    assert!(matches!(
        choose_stale_binary(&project, &args, false, false),
        StaleBinary::Missing
    ));
}
