use cargo_serve::cli::{strip_serve_subcommand, CargoArgs};

fn strings(parts: &[&str]) -> Vec<String> {
    parts.iter().map(|s| s.to_string()).collect()
}

#[test]
fn strips_cargo_injected_serve_subcommand() {
    assert_eq!(
        strip_serve_subcommand(strings(&["cargo-serve", "serve", "--release"])),
        strings(&["cargo-serve", "--release"])
    );
}

#[test]
fn leaves_direct_invocation_untouched() {
    assert_eq!(
        strip_serve_subcommand(strings(&["cargo-serve", "--release"])),
        strings(&["cargo-serve", "--release"])
    );
}

#[test]
fn only_strips_the_leading_serve_not_trailing_server_args() {
    assert_eq!(
        strip_serve_subcommand(strings(&["cargo-serve", "serve", "--", "serve"])),
        strings(&["cargo-serve", "--", "serve"])
    );
}

#[test]
fn strip_leaves_a_bare_program_name_alone() {
    assert_eq!(
        strip_serve_subcommand(strings(&["cargo-serve"])),
        strings(&["cargo-serve"])
    );
    assert_eq!(strip_serve_subcommand(Vec::new()), Vec::<String>::new());
}

#[test]
fn features_accept_space_separated_and_repeated_flags() {
    // `-F "a b" --features c,d`: clap splits the second value at the comma.
    let args = CargoArgs {
        features: strings(&["a b", "c", "d"]),
        ..Default::default()
    };
    assert_eq!(args.feature_list(), vec!["a", "b", "c", "d"]);
}

#[test]
fn feature_list_drops_empty_names() {
    let args = CargoArgs {
        features: strings(&[",a,,b ", "", "  c"]),
        ..Default::default()
    };
    assert_eq!(args.feature_list(), vec!["a", "b", "c"]);
}

#[test]
fn forward_flags_empty_by_default() {
    assert!(CargoArgs::default().forward_flags().is_empty());
}

#[test]
fn forward_flags_omits_target_selection() {
    let args = CargoArgs {
        bin: Some("myapp".into()),
        ..Default::default()
    };
    assert!(args.forward_flags().is_empty());
}

#[test]
fn forward_flags_covers_every_cargo_option() {
    let args = CargoArgs {
        features: strings(&["a", "b"]),
        all_features: true,
        no_default_features: true,
        jobs: Some("2".into()),
        keep_going: true,
        profile: Some("custom".into()),
        target: Some("x86_64-unknown-linux-gnu".into()),
        target_dir: Some("/tmp/t".into()),
        timings: Some("html".into()),
        manifest_path: Some("/tmp/Cargo.toml".into()),
        lockfile_path: Some("/tmp/Cargo.lock".into()),
        ignore_rust_version: true,
        locked: true,
        offline: true,
        frozen: true,
        verbose: 2,
        color: Some("never".into()),
        config: strings(&["k=v"]),
        unstable: strings(&["unstable-options"]),
        ..Default::default()
    };

    assert_eq!(
        args.forward_flags(),
        strings(&[
            "--features",
            "a,b",
            "--all-features",
            "--no-default-features",
            "--jobs",
            "2",
            "--keep-going",
            "--profile",
            "custom",
            "--target",
            "x86_64-unknown-linux-gnu",
            "--target-dir",
            "/tmp/t",
            "--timings=html",
            "--ignore-rust-version",
            "--manifest-path",
            "/tmp/Cargo.toml",
            "--lockfile-path",
            "/tmp/Cargo.lock",
            "--locked",
            "--offline",
            "--frozen",
            "--config",
            "k=v",
            "-Z",
            "unstable-options",
            "-v",
            "-v",
            "--color",
            "never",
        ])
    );
}

#[test]
fn metadata_flags_are_shared_with_the_build() {
    let args = CargoArgs {
        manifest_path: Some("/tmp/Cargo.toml".into()),
        offline: true,
        config: strings(&["k=v"]),
        unstable: strings(&["z"]),
        ..Default::default()
    };
    assert_eq!(
        args.metadata_flags(),
        strings(&[
            "--manifest-path",
            "/tmp/Cargo.toml",
            "--offline",
            "--config",
            "k=v",
            "-Z",
            "z",
        ])
    );
}

#[test]
fn metadata_flags_exclude_options_cargo_metadata_rejects() {
    let args = CargoArgs {
        ignore_rust_version: true,
        ..Default::default()
    };
    assert!(args.metadata_flags().is_empty());
    assert_eq!(args.forward_flags(), strings(&["--ignore-rust-version"]));
}

#[test]
fn quiet_is_forwarded() {
    let args = CargoArgs {
        quiet: true,
        ..Default::default()
    };
    assert_eq!(args.forward_flags(), strings(&["--quiet"]));
}

#[test]
fn repeated_config_and_unstable_flags_keep_their_order() {
    let args = CargoArgs {
        config: strings(&["a=1", "b=2"]),
        unstable: strings(&["x", "y"]),
        ..Default::default()
    };
    assert_eq!(
        args.metadata_flags(),
        strings(&["--config", "a=1", "--config", "b=2", "-Z", "x", "-Z", "y"])
    );
}

#[test]
fn profile_dir_maps_builtin_profiles_to_their_directories() {
    let dir = |profile: Option<&str>, release: bool| {
        CargoArgs {
            profile: profile.map(|p| p.to_string()),
            release,
            ..Default::default()
        }
        .profile_dir()
        .to_string()
    };
    assert_eq!(dir(None, false), "debug");
    assert_eq!(dir(None, true), "release");
    assert_eq!(dir(Some("dev"), false), "debug");
    assert_eq!(dir(Some("test"), false), "debug");
    assert_eq!(dir(Some("bench"), false), "release");
    assert_eq!(dir(Some("release"), false), "release");
    assert_eq!(dir(Some("fast-dev"), false), "fast-dev");
}

#[test]
fn normalising_a_normalised_feature_list_changes_nothing() {
    let args = CargoArgs {
        features: strings(&[",a,,b ", "c d", "  e"]),
        ..Default::default()
    };
    let names: Vec<String> = args.feature_list().iter().map(|s| s.to_string()).collect();
    assert_eq!(names, vec!["a", "b", "c", "d", "e"]);
    for sep in [",", " "] {
        let again = CargoArgs {
            features: vec![names.join(sep)],
            ..Default::default()
        };
        assert_eq!(again.feature_list(), names);
    }
}
