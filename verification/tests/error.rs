use cargo_serve::error::{chain, Error};

#[test]
fn chain_appends_source_cause() {
    let err = Error::StagingFailed {
        path: "/x/bin".into(),
        source: "no such file".into(),
    };
    assert_eq!(chain(&err), "failed to stage binary to /x/bin: no such file");
}

#[test]
fn chain_without_source_is_just_the_message() {
    assert_eq!(chain(&Error::NoBinaryTarget), "no binary target found in package");
}

#[test]
fn chain_does_not_duplicate_a_wrapped_source() {
    let err = Error::SpawnFailed("denied".into());
    assert_eq!(chain(&err), "failed to spawn server: denied");
}

#[test]
fn messages_quote_names_the_way_debug_does() {
    let err = Error::MultipleBinaryTargets {
        targets: vec!["a".into(), "b\"c".into()],
    };
    assert_eq!(
        err.message(),
        "multiple binary targets found: [\"a\", \"b\\\"c\"] — use --bin to select one"
    );
    let err = Error::TargetNotFound {
        kind: "example",
        name: "demo".into(),
        package: "pkg".into(),
    };
    assert_eq!(chain(&err), "example target \"demo\" not found in package pkg");
}

#[test]
fn every_wrapped_cause_follows_its_message() {
    assert_eq!(chain(&Error::Watcher("inotify".into())), "file watcher error: inotify");
    assert_eq!(chain(&Error::Metadata("no manifest".into())), "cargo metadata error: no manifest");
    assert_eq!(chain(&Error::Io("gone".into())), "io error: gone");
    assert_eq!(chain(&Error::StopFailed("eperm".into())), "failed to stop server: eperm");
    assert_eq!(chain(&Error::CheckFailed), "cargo check failed");
    assert_eq!(chain(&Error::BuildFailed), "cargo build failed");
    assert_eq!(
        chain(&Error::BinaryNotFoundInOutput),
        "could not find built binary in cargo output"
    );
    assert_eq!(
        chain(&Error::BinaryTargetNotFound { name: "web".into() }),
        "binary target \"web\" not found in package"
    );
    assert_eq!(
        chain(&Error::NoCurrentPackage {
            available: vec!["alpha".into(), "beta".into()]
        }),
        "no current package in this workspace — use -p to select one of [\"alpha\", \"beta\"]"
    );
    assert_eq!(
        chain(&Error::PackageNotFound {
            spec: "gamma".into(),
            available: vec!["alpha".into()]
        }),
        "package \"gamma\" not found in workspace; members: [\"alpha\"]"
    );
}
