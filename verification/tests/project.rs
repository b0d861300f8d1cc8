use std::path::Path;

use cargo_serve::cli::CargoArgs;
use cargo_serve::error::Error;
use cargo_serve::project::{
    package_matches_spec, pick_target_dir, resolve_target, resolve_target_dir, select_package,
    target_names,
    PackageInfo, ProjectInfo, TargetInfo, TargetKindSelector, WorkspaceMetadata,
};

fn resolve(
    bin: Option<&str>,
    example: Option<&str>,
    bins: &[&str],
    examples: &[&str],
    default_run: Option<&str>,
) -> Result<(String, TargetKindSelector), Error> {
    resolve_target(bin, example, bins, examples, default_run, "pkg")
}

fn target(name: &str, is_bin: bool, is_example: bool) -> TargetInfo {
    TargetInfo {
        name: name.into(),
        is_bin,
        is_example,
    }
}

fn package(name: &str, version: &str, targets: Vec<TargetInfo>, default_run: Option<&str>) -> PackageInfo {
    PackageInfo {
        name: name.into(),
        version: version.into(),
        targets,
        default_run: default_run.map(|s| s.to_string()),
    }
}

/// A virtual workspace: `alpha` with two binaries, `default-run = "alpha"`
/// and an example `demo`; `beta` with a single binary.
fn workspace() -> WorkspaceMetadata {
    WorkspaceMetadata {
        members: vec![
            package(
                "alpha",
                "0.1.0",
                vec![
                    target("alpha", true, false),
                    target("alpha-worker", true, false),
                    target("demo", false, true),
                ],
                Some("alpha"),
            ),
            package("beta", "2.3.4", vec![target("beta", true, false)], None),
        ],
        root_package: None,
        target_directory: "/ws/target".into(),
        workspace_root: "/ws".into(),
    }
}

#[test]
fn relative_target_dir_becomes_absolute() {
    let resolved = resolve_target_dir("out").unwrap();
    assert!(Path::new(&resolved).is_absolute(), "{} must be absolute", resolved);
    assert!(Path::new(&resolved).ends_with("out"));
}

#[test]
fn absolute_target_dir_is_preserved_even_when_missing() {
    assert_eq!(
        resolve_target_dir("/nonexistent/cargo-serve-out").unwrap(),
        "/nonexistent/cargo-serve-out"
    );
}

#[test]
fn empty_target_dir_is_an_io_error() {
    assert!(matches!(resolve_target_dir(""), Err(Error::Io(_))));
}

#[test]
fn resolve_single_target_without_flag() {
    assert_eq!(
        resolve(None, None, &["only"], &[], None).unwrap(),
        ("only".to_string(), TargetKindSelector::Bin)
    );
}

#[test]
fn resolve_explicit_flag_wins_over_default_run() {
    let (name, _) = resolve(Some("a"), None, &["a", "b"], &[], Some("b")).unwrap();
    assert_eq!(name, "a");
}

#[test]
fn resolve_explicit_flag_unknown_errors() {
    let err = resolve(Some("missing"), None, &["a", "b"], &[], None).unwrap_err();
    assert!(matches!(err, Error::TargetNotFound { kind: "bin", .. }));
}

#[test]
fn resolve_multiple_targets_uses_default_run() {
    let (name, _) = resolve(None, None, &["a", "b"], &[], Some("b")).unwrap();
    assert_eq!(name, "b");
}

#[test]
fn resolve_multiple_targets_without_default_run_errors() {
    let err = resolve(None, None, &["a", "b"], &[], None).unwrap_err();
    assert!(matches!(err, Error::MultipleBinaryTargets { .. }));
}

#[test]
fn resolve_default_run_pointing_at_unknown_target_errors() {
    let err = resolve(None, None, &["a", "b"], &[], Some("ghost")).unwrap_err();
    assert!(matches!(err, Error::TargetNotFound { .. }));
}

#[test]
fn resolve_no_targets_errors() {
    let err = resolve(None, None, &[], &[], None).unwrap_err();
    assert!(matches!(err, Error::NoBinaryTarget { .. }));
}

#[test]
fn resolve_example_selects_the_example_kind() {
    assert_eq!(
        resolve(None, Some("demo"), &["app"], &["demo"], Some("app")).unwrap(),
        ("demo".to_string(), TargetKindSelector::Example)
    );
}

#[test]
fn resolve_example_is_not_satisfied_by_a_binary_of_the_same_name() {
    let err = resolve(None, Some("app"), &["app"], &[], None).unwrap_err();
    assert!(matches!(
        err,
        Error::TargetNotFound {
            kind: "example",
            ..
        }
    ));
}

#[test]
fn example_artifacts_live_in_an_examples_subdirectory() {
    assert_eq!(TargetKindSelector::Bin.artifact_subdir(), None);
    assert_eq!(
        TargetKindSelector::Example.artifact_subdir(),
        Some("examples")
    );
}

#[test]
fn target_kinds_name_their_cargo_flag_and_artifact_kind() {
    assert_eq!(TargetKindSelector::Bin.cargo_flag(), "--bin");
    assert_eq!(TargetKindSelector::Example.cargo_flag(), "--example");
    assert_eq!(TargetKindSelector::Bin.artifact_kind(), "bin");
    assert_eq!(TargetKindSelector::Example.artifact_kind(), "example");
    assert_eq!(TargetKindSelector::default(), TargetKindSelector::Bin);
}

#[test]
fn spec_matches_bare_name_and_name_at_version() {
    let pkg = package("cargo-serve", "0.1.0", Vec::new(), None);
    assert!(package_matches_spec(&pkg, "cargo-serve"));
    assert!(package_matches_spec(&pkg, &format!("cargo-serve@{}", pkg.version)));
    assert!(!package_matches_spec(&pkg, "cargo-serve@0.0.0"));
    assert!(!package_matches_spec(&pkg, "other"));
}

#[test]
fn staged_binary_lives_in_the_staging_directory() {
    let info = ProjectInfo {
        package_name: "cargo-serve".into(),
        target_name: "cargo-serve".into(),
        target_kind: TargetKindSelector::Bin,
        target_dir: "/tmp/elsewhere".into(),
        workspace_root: "/ws".into(),
    };
    assert_eq!(info.staging_dir(), "/tmp/elsewhere/.cargo-serve");
    assert_eq!(info.staged_binary(), "/tmp/elsewhere/.cargo-serve/cargo-serve");
}

#[test]
fn target_names_keep_only_the_requested_kind() {
    let ws = workspace();
    assert_eq!(
        target_names(&ws.members[0], TargetKindSelector::Bin),
        vec!["alpha", "alpha-worker"]
    );
    assert_eq!(
        target_names(&ws.members[0], TargetKindSelector::Example),
        vec!["demo"]
    );
}

#[test]
fn package_flag_selects_a_workspace_member_and_its_default_run() {
    let ws = workspace();
    let info = ProjectInfo::discover(
        &CargoArgs {
            package: Some("alpha".into()),
            ..Default::default()
        },
        &ws,
    )
    .unwrap();
    assert_eq!(info.package_name, "alpha");
    assert_eq!(info.target_name, "alpha");
    assert_eq!(info.target_kind, TargetKindSelector::Bin);
    assert_eq!(info.workspace_root, "/ws");
    assert_eq!(info.target_dir, "/ws/target");
}

#[test]
fn package_flag_combines_with_bin_selection() {
    let info = ProjectInfo::discover(
        &CargoArgs {
            package: Some("alpha".into()),
            bin: Some("alpha-worker".into()),
            ..Default::default()
        },
        &workspace(),
    )
    .unwrap();
    assert_eq!(info.target_name, "alpha-worker");
    assert_eq!(info.target_kind, TargetKindSelector::Bin);
}

#[test]
fn package_flag_accepts_name_at_version() {
    let info = ProjectInfo::discover(
        &CargoArgs {
            package: Some("beta@2.3.4".into()),
            ..Default::default()
        },
        &workspace(),
    )
    .unwrap();
    assert_eq!(info.package_name, "beta");
    assert_eq!(info.target_name, "beta");
}

#[test]
fn example_selection_resolves_to_the_examples_artifact_path() {
    let info = ProjectInfo::discover(
        &CargoArgs {
            package: Some("alpha".into()),
            example: Some("demo".into()),
            ..Default::default()
        },
        &workspace(),
    )
    .unwrap();
    assert_eq!(info.target_name, "demo");
    assert_eq!(info.target_kind, TargetKindSelector::Example);
    assert_eq!(info.staged_binary(), "/ws/target/.cargo-serve/demo");
}

#[test]
fn virtual_workspace_root_without_package_flag_asks_for_one() {
    let err = ProjectInfo::discover(&CargoArgs::default(), &workspace()).unwrap_err();
    let Error::NoCurrentPackage { available } = err else {
        panic!("expected NoCurrentPackage, got {err:?}");
    };
    assert_eq!(available, vec!["alpha", "beta"]);
}

#[test]
fn unknown_package_lists_the_workspace_members() {
    let err = ProjectInfo::discover(
        &CargoArgs {
            package: Some("gamma".into()),
            ..Default::default()
        },
        &workspace(),
    )
    .unwrap_err();
    let Error::PackageNotFound { spec, available } = err else {
        panic!("expected PackageNotFound, got {err:?}");
    };
    assert_eq!(spec, "gamma");
    assert!(available.contains(&"alpha".to_string()));
}

#[test]
fn ambiguous_binary_without_default_run_requires_bin_flag() {
    let mut ws = workspace();
    ws.members[0].default_run = None;
    let err = ProjectInfo::discover(
        &CargoArgs {
            package: Some("alpha".into()),
            ..Default::default()
        },
        &ws,
    )
    .unwrap_err();
    let Error::MultipleBinaryTargets { targets } = err else {
        panic!("expected MultipleBinaryTargets, got {err:?}");
    };
    assert_eq!(targets, vec!["alpha", "alpha-worker"]);
}

#[test]
fn target_dir_override_wins_over_workspace_metadata() {
    let info = ProjectInfo::discover(
        &CargoArgs {
            package: Some("beta".into()),
            target_dir: Some("/tmp/cargo-serve-out".into()),
            ..Default::default()
        },
        &workspace(),
    )
    .unwrap();
    assert_eq!(info.target_dir, "/tmp/cargo-serve-out");
}

#[test]
fn current_package_is_chosen_without_a_flag() {
    let mut ws = workspace();
    ws.root_package = Some(package("beta", "2.3.4", vec![target("beta", true, false)], None));
    let picked = select_package(&ws, None).unwrap();
    assert_eq!(picked.name, "beta");
    let single = WorkspaceMetadata {
        members: vec![package("solo", "1.0.0", vec![target("solo", true, false)], None)],
        root_package: None,
        target_directory: "/s/target".into(),
        workspace_root: "/s".into(),
    };
    assert_eq!(select_package(&single, None).unwrap().name, "solo");
}

#[test]
fn package_spec_with_wrong_version_is_not_found() {
    let err = select_package(&workspace(), Some("beta@9.9.9")).unwrap_err();
    assert!(matches!(err, Error::PackageNotFound { .. }));
}

#[test]
fn existing_target_dir_is_resolved_through_the_filesystem() {
    // `..` survives `std::path::absolute` but not canonicalization.
    assert_eq!(resolve_target_dir("/tmp/..").unwrap(), "/");
}

/// The metadata of this tool's own package: one binary, `cargo-serve`.
fn own_metadata() -> WorkspaceMetadata {
    let own = package("cargo-serve", "0.1.0", vec![target("cargo-serve", true, false)], None);
    WorkspaceMetadata {
        members: vec![package(
            "cargo-serve",
            "0.1.0",
            vec![target("cargo-serve", true, false)],
            None,
        )],
        root_package: Some(own),
        target_directory: "/src/cargo-serve/target".into(),
        workspace_root: "/src/cargo-serve".into(),
    }
}

#[test]
fn discover_current_project() {
    let info = ProjectInfo::discover(&CargoArgs::default(), &own_metadata())
        .expect("should discover cargo-serve itself");
    assert_eq!(info.package_name, "cargo-serve");
    assert_eq!(info.target_name, "cargo-serve");
    assert_eq!(info.target_kind, TargetKindSelector::Bin);
}

#[test]
fn discover_nonexistent_bin() {
    let args = CargoArgs {
        bin: Some("nonexistent".into()),
        ..Default::default()
    };
    let err = ProjectInfo::discover(&args, &own_metadata()).unwrap_err();
    assert!(matches!(err, Error::TargetNotFound { .. }));
}

#[test]
fn discover_nonexistent_package() {
    let args = CargoArgs {
        package: Some("nonexistent".into()),
        ..Default::default()
    };
    let err = ProjectInfo::discover(&args, &own_metadata()).unwrap_err();
    assert!(matches!(err, Error::PackageNotFound { .. }));
}

#[test]
fn discover_honours_target_dir_override() {
    let args = CargoArgs {
        target_dir: Some("/tmp/elsewhere".into()),
        ..Default::default()
    };
    let info = ProjectInfo::discover(&args, &own_metadata()).unwrap();
    assert_eq!(info.target_dir, "/tmp/elsewhere");
    assert_eq!(info.staged_binary(), "/tmp/elsewhere/.cargo-serve/cargo-serve");
}

#[test]
fn canonical_target_dir_is_preferred_when_it_resolves() {
    assert_eq!(pick_target_dir("/ws/out".into(), Some("/real/out".into())), "/real/out");
    assert_eq!(pick_target_dir("/ws/out".into(), None), "/ws/out");
}

#[test]
fn relative_target_dir_keeps_its_components_at_the_end() {
    let resolved = resolve_target_dir("out/nested").unwrap();
    assert!(resolved.starts_with('/'));
    assert!(resolved.ends_with("/out/nested"), "{resolved}");
}

#[test]
fn unnormalised_absolute_target_dir_loses_dot_components() {
    assert_eq!(
        resolve_target_dir("/nonexistent//cargo-serve/./out").unwrap(),
        "/nonexistent/cargo-serve/out"
    );
}

#[test]
fn empty_target_dir_override_fails_discovery() {
    let args = CargoArgs {
        target_dir: Some(String::new()),
        ..Default::default()
    };
    let err = ProjectInfo::discover(&args, &own_metadata()).unwrap_err();
    assert!(matches!(err, Error::Io(_)));
}
