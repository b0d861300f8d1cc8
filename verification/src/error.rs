//! The library's error type, its messages and the one-line rendering of an
//! error together with its cause.
use vstd::prelude::*;
use vstd::string::*;

use crate::text::{join, views};

verus! {

/// Everything that can go wrong while discovering, building, staging or
/// supervising. Causes coming from the operating system or another tool are
/// held as their rendered message.
#[derive(Debug)]
pub enum Error {
    NoBinaryTarget,
    MultipleBinaryTargets { targets: Vec<String> },
    BinaryTargetNotFound { name: String },
    TargetNotFound { kind: &'static str, name: String, package: String },
    PackageNotFound { spec: String, available: Vec<String> },
    NoCurrentPackage { available: Vec<String> },
    CheckFailed,
    BuildFailed,
    BinaryNotFoundInOutput,
    StagingFailed { path: String, source: String },
    SpawnFailed(String),
    StopFailed(String),
    Watcher(String),
    Metadata(String),
    Io(String),
}

/// What `{:?}` prints for a string: the text in double quotes with special
/// characters escaped.
pub uninterp spec fn debug_quoted(s: Seq<char>) -> Seq<char>;

/// `{:?}` of a list of strings: `["a", "b"]`.
pub open spec fn debug_list(items: Seq<Seq<char>>) -> Seq<char> {
    "["@ + join(items.map_values(|s: Seq<char>| debug_quoted(s)), ", "@) + "]"@
}

/// The `Debug` rendering of a string, as the standard library formats it.
#[verifier::external_body]
fn debug_str(s: &str) -> (r: String)
    ensures
        r@ == debug_quoted(s@),
{
    format!("{:?}", s)
}

impl Error {
    /// The error's own message, without its cause.
    pub open spec fn spec_message(&self) -> Seq<char> {
        match self {
            Error::NoBinaryTarget => "no binary target found in package"@,
            Error::MultipleBinaryTargets { targets } => "multiple binary targets found: "@
                + debug_list(views(targets@)) + " — use --bin to select one"@,
            Error::BinaryTargetNotFound { name } => "binary target "@ + debug_quoted(name@)
                + " not found in package"@,
            Error::TargetNotFound { kind, name, package } => kind@ + " target "@ + debug_quoted(
                name@,
            ) + " not found in package "@ + package@,
            Error::PackageNotFound { spec, available } => "package "@ + debug_quoted(spec@)
                + " not found in workspace; members: "@ + debug_list(views(available@)),
            Error::NoCurrentPackage { available } =>
                "no current package in this workspace — use -p to select one of "@ + debug_list(
                views(available@),
            ),
            Error::CheckFailed => "cargo check failed"@,
            Error::BuildFailed => "cargo build failed"@,
            Error::BinaryNotFoundInOutput => "could not find built binary in cargo output"@,
            Error::StagingFailed { path, source } => "failed to stage binary to "@ + path@,
            Error::SpawnFailed(_) => "failed to spawn server"@,
            Error::StopFailed(_) => "failed to stop server"@,
            Error::Watcher(_) => "file watcher error"@,
            Error::Metadata(_) => "cargo metadata error"@,
            Error::Io(_) => "io error"@,
        }
    }

    /// The message of the underlying cause, for variants that wrap one.
    pub open spec fn spec_source(&self) -> Option<Seq<char>> {
        match self {
            Error::StagingFailed { source, .. } => Some(source@),
            Error::SpawnFailed(s) => Some(s@),
            Error::StopFailed(s) => Some(s@),
            Error::Watcher(s) => Some(s@),
            Error::Metadata(s) => Some(s@),
            Error::Io(s) => Some(s@),
            _ => None,
        }
    }

    /// The error's own message (what `Display` shows), without its cause.
    pub fn message(&self) -> (r: String)
        ensures
            r@ == self.spec_message(),
    {
        match self {
            Error::NoBinaryTarget => String::from_str("no binary target found in package"),
            Error::MultipleBinaryTargets { targets } => {
                let list = debug_strings(targets);
                surround("multiple binary targets found: ", list.as_str(), " — use --bin to select one")
            },
            Error::BinaryTargetNotFound { name } => {
                let quoted = debug_str(name.as_str());
                surround("binary target ", quoted.as_str(), " not found in package")
            },
            Error::TargetNotFound { kind, name, package } => {
                let quoted = debug_str(name.as_str());
                let mut out = surround(kind, " target ", quoted.as_str());
                out.append(" not found in package ");
                out.append(package.as_str());
                out
            },
            Error::PackageNotFound { spec, available } => {
                let quoted = debug_str(spec.as_str());
                let list = debug_strings(available);
                let mut out = surround("package ", quoted.as_str(), " not found in workspace; members: ");
                out.append(list.as_str());
                out
            },
            Error::NoCurrentPackage { available } => {
                let list = debug_strings(available);
                {
                let mut out = String::from_str(
                    "no current package in this workspace — use -p to select one of ",
                );
                out.append(list.as_str());
                out
            }
            },
            Error::CheckFailed => String::from_str("cargo check failed"),
            Error::BuildFailed => String::from_str("cargo build failed"),
            Error::BinaryNotFoundInOutput => String::from_str(
                "could not find built binary in cargo output",
            ),
            Error::StagingFailed { path, .. } => {
                let mut out = String::from_str("failed to stage binary to ");
                out.append(path.as_str());
                out
            },
            Error::SpawnFailed(_) => String::from_str("failed to spawn server"),
            Error::StopFailed(_) => String::from_str("failed to stop server"),
            Error::Watcher(_) => String::from_str("file watcher error"),
            Error::Metadata(_) => String::from_str("cargo metadata error"),
            Error::Io(_) => String::from_str("io error"),
        }
    }

    /// The message of the underlying cause, for variants that wrap one.
    pub fn source_message(&self) -> (r: Option<&str>)
        ensures
            match r {
                Some(s) => self.spec_source() == Some(s@),
                None => self.spec_source() is None,
            },
    {
        match self {
            Error::StagingFailed { source, .. } => Some(source.as_str()),
            Error::SpawnFailed(s) => Some(s.as_str()),
            Error::StopFailed(s) => Some(s.as_str()),
            Error::Watcher(s) => Some(s.as_str()),
            Error::Metadata(s) => Some(s.as_str()),
            Error::Io(s) => Some(s.as_str()),
            _ => None,
        }
    }
}

/// `a`, `b` and `c` concatenated.
fn surround(a: &str, b: &str, c: &str) -> (r: String)
    ensures
        r@ == a@ + b@ + c@,
{
    let mut out = a.to_string();
    out.append(b);
    out.append(c);
    out
}

/// `{:?}` of a list of strings.
fn debug_strings(items: &Vec<String>) -> (r: String)
    ensures
        r@ == debug_list(views(items@)),
{
    let ghost quoted = views(items@).map_values(|s: Seq<char>| debug_quoted(s));
    let mut out = String::from_str("[");
    let mut i: usize = 0;
    while i < items.len()
        invariant
            0 <= i <= items.len(),
            quoted == views(items@).map_values(|s: Seq<char>| debug_quoted(s)),
            out@ == "["@ + join(quoted.take(i as int), ", "@),
        decreases items.len() - i,
    {
        if i > 0 {
            out.append(", ");
        }
        let q = debug_str(items[i].as_str());
        out.append(q.as_str());
        proof {
            assert(quoted.take(i + 1).drop_last() =~= quoted.take(i as int));
            if i == 0 {
                assert(join(quoted.take(1), ", "@) == quoted.take(1)[0]);
            }
            assert(out@ =~= "["@ + join(quoted.take(i + 1), ", "@));
        }
        i = i + 1;
    }
    assert(quoted.take(items.len() as int) =~= quoted);
    out.append("]");
    out
}

/// The one-line rendering of an error followed by its cause, e.g.
/// `failed to stage binary to /x: No such file or directory (os error 2)`.
pub open spec fn spec_chain(err: &Error) -> Seq<char> {
    match err.spec_source() {
        Some(cause) => err.spec_message() + ": "@ + cause,
        None => err.spec_message(),
    }
}

/// Renders an error together with its cause as a single line. The cause is
/// appended once, after the error's own message.
pub fn chain(err: &Error) -> (r: String)
    ensures
        r@ == spec_chain(err),
{
    let mut out = err.message();
    match err.source_message() {
        Some(cause) => {
            out.append(": ");
            out.append(cause);
        },
        None => {},
    }
    out
}

} // verus!
