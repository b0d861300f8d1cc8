//! The check → build → stage pipeline: the cargo command lines, locating the
//! built executable in cargo's JSON output or its expected path, and the
//! staging paths.
use vstd::prelude::*;
use vstd::string::*;

use crate::cli::{spec_profile_dir, CargoArgs, ServeArgs};
use crate::error::Error;
use crate::json::{as_text, field, get_field, json_parse, parse_json, text_of, JsonValue};
use crate::project::{ProjectInfo, TargetKindSelector};
use crate::text::{decimal, decimal_string, opt_view, path_push, push_path, str_eq, views};

verus! {

/// Cargo's artifact layout: `<target-dir>[/<triple>]/<profile>[/examples]/<name>`.
pub open spec fn spec_expected_binary_path(project: &ProjectInfo, args: &CargoArgs) -> Seq<char> {
    let base = match args.target {
        Some(triple) => path_push(project.target_dir@, triple@),
        None => project.target_dir@,
    };
    let profile = path_push(base, spec_profile_dir(opt_view(args.profile), args.release));
    let kind_dir = match project.target_kind.spec_artifact_subdir() {
        Some(sub) => path_push(profile, sub),
        None => profile,
    };
    path_push(kind_dir, project.target_name@)
}

/// The path where cargo puts the selected executable, built from project
/// metadata rather than from cargo's output.
pub fn expected_binary_path(project: &ProjectInfo, args: &CargoArgs) -> (r: String)
    ensures
        r@ == spec_expected_binary_path(project, args),
{
    let mut path = project.target_dir.clone();
    match &args.target {
        Some(triple) => {
            path = push_path(path.as_str(), triple.as_str());
        },
        None => {},
    }
    path = push_path(path.as_str(), args.profile_dir());
    match project.target_kind.artifact_subdir() {
        Some(sub) => {
            path = push_path(path.as_str(), sub);
        },
        None => {},
    }
    push_path(path.as_str(), project.target_name.as_str())
}

proof fn lemma_push_extends(base: Seq<char>, part: Seq<char>)
    requires
        !(part.len() > 0 && part[0] == '/'),
    ensures
        base.is_prefix_of(path_push(base, part)),
        part.len() <= path_push(base, part).len(),
        path_push(base, part).subrange(path_push(base, part).len() - part.len(), path_push(base, part).len() as int) == part,
{
    let r = path_push(base, part);
    if base.len() > 0 && base.last() != '/' {
        assert(r == base + seq!['/'] + part);
    } else {
        assert(r == base + part);
    }
    assert(r.subrange(0, base.len() as int) =~= base);
    assert(r.subrange(r.len() - part.len(), r.len() as int) =~= part);
}

proof fn lemma_prefix_trans(a: Seq<char>, b: Seq<char>, c: Seq<char>)
    requires
        a.is_prefix_of(b),
        b.is_prefix_of(c),
    ensures
        a.is_prefix_of(c),
{
    assert forall|i: int| 0 <= i < a.len() implies a[i] == c.subrange(0, a.len() as int)[i] by {
        assert(a[i] == b.subrange(0, a.len() as int)[i]);
        assert(b[i] == c.subrange(0, b.len() as int)[i]);
    }
    assert(a =~= c.subrange(0, a.len() as int));
}

/// Where cargo puts the executable is below the target directory, below the
/// `--target` triple's directory within it whatever the profile, below
/// `debug` or (with `--release`) `release` there when no profile is named,
/// and ends with the target's name. Profile and target names are relative,
/// as cargo requires; the target directory is a prefix unless the triple is
/// given as an absolute path, which replaces it.
pub proof fn expected_binary_path_lies_under_the_triple(project: &ProjectInfo, args: &CargoArgs)
    requires
        args.profile matches Some(p) ==> !(p@.len() > 0 && p@[0] == '/'),
        !(project.target_name@.len() > 0 && project.target_name@[0] == '/'),
    ensures
        (args.target matches Some(t) ==> !(t@.len() > 0 && t@[0] == '/'))
            ==> project.target_dir@.is_prefix_of(spec_expected_binary_path(project, args)),
        args.target matches Some(t) ==> path_push(project.target_dir@, t@).is_prefix_of(
            spec_expected_binary_path(project, args),
        ),
        args.profile is None ==> path_push(
            match args.target {
                Some(t) => path_push(project.target_dir@, t@),
                None => project.target_dir@,
            },
            if args.release {
                "release"@
            } else {
                "debug"@
            },
        ).is_prefix_of(spec_expected_binary_path(project, args)),
        ({
            let path = spec_expected_binary_path(project, args);
            let name = project.target_name@;
            name.len() <= path.len() && path.subrange(path.len() - name.len(), path.len() as int)
                == name
        }),
{
    reveal_strlit("debug");
    reveal_strlit("release");
    reveal_strlit("examples");
    let dir = project.target_dir@;
    let base = match args.target {
        Some(t) => path_push(dir, t@),
        None => dir,
    };
    let profile_dir = spec_profile_dir(opt_view(args.profile), args.release);
    assert(!(profile_dir.len() > 0 && profile_dir[0] == '/'));
    let profile = path_push(base, profile_dir);
    let kind_dir = match project.target_kind.spec_artifact_subdir() {
        Some(sub) => path_push(profile, sub),
        None => profile,
    };
    let path = path_push(kind_dir, project.target_name@);
    assert(path == spec_expected_binary_path(project, args));
    lemma_push_extends(base, profile_dir);
    match project.target_kind.spec_artifact_subdir() {
        Some(sub) => {
            lemma_push_extends(profile, sub);
            lemma_prefix_trans(base, profile, kind_dir);
        },
        None => {},
    }
    lemma_push_extends(kind_dir, project.target_name@);
    lemma_prefix_trans(base, kind_dir, path);
    match project.target_kind.spec_artifact_subdir() {
        Some(sub) => {
            lemma_prefix_trans(profile, kind_dir, path);
        },
        None => {},
    }
    match args.target {
        Some(t) => {
            if t@.len() > 0 && t@[0] == '/' {
                assert(base == t@);
            } else {
                lemma_push_extends(dir, t@);
                lemma_prefix_trans(dir, base, path);
            }
        },
        None => {},
    }
}

/// Name of the per-process staging temp file: hidden, and carrying the pid so
/// that concurrent instances watching the same project never share one.
pub open spec fn spec_staging_tmp_name(bin_name: Seq<char>, pid: u32) -> Seq<char> {
    "."@ + bin_name + "."@ + decimal(pid as nat) + ".new"@
}

/// Name of the per-process staging temp file.
pub fn staging_tmp_name(bin_name: &str, pid: u32) -> (r: String)
    ensures
        r@ == spec_staging_tmp_name(bin_name@, pid),
{
    let mut out = String::from_str(".");
    out.append(bin_name);
    out.append(".");
    let digits = decimal_string(pid);
    out.append(digits.as_str());
    out.append(".new");
    out
}

/// Two processes never share a staging temp file: distinct pids give
/// distinct names for the same binary.
pub proof fn staging_tmp_name_unique_per_process(bin_name: Seq<char>, pid: u32, other: u32)
    requires
        pid != other,
    ensures
        spec_staging_tmp_name(bin_name, pid) != spec_staging_tmp_name(bin_name, other),
{
    crate::text::lemma_decimal_injective(pid as nat, other as nat);
    let head = "."@ + bin_name + "."@;
    let d1 = decimal(pid as nat);
    let d2 = decimal(other as nat);
    let a = spec_staging_tmp_name(bin_name, pid);
    let b = spec_staging_tmp_name(bin_name, other);
    assert(a == head + d1 + ".new"@);
    assert(b == head + d2 + ".new"@);
    if d1.len() == d2.len() {
        if forall|k: int| 0 <= k < d1.len() ==> d1[k] == d2[k] {
            assert(d1 =~= d2);
        }
        let k: int = choose|k: int| 0 <= k < d1.len() && d1[k] != d2[k];
        assert((head + d1)[head.len() + k] == d1[k]);
        assert((head + d2)[head.len() + k] == d2[k]);
        assert(a[head.len() + k] == (head + d1)[head.len() + k]);
        assert(b[head.len() + k] == (head + d2)[head.len() + k]);
    } else {
        assert(a.len() != b.len());
    }
}

/// The staging temp file is hidden, and never collides with the staged
/// binary, whose name is the bare target name.
pub proof fn staging_tmp_name_hidden_and_distinct(bin_name: Seq<char>, pid: u32)
    ensures
        spec_staging_tmp_name(bin_name, pid)[0] == '.',
        spec_staging_tmp_name(bin_name, pid) != bin_name,
{
    reveal_strlit(".");
    reveal_strlit(".new");
    let name = spec_staging_tmp_name(bin_name, pid);
    assert(name.len() > bin_name.len());
}

/// Staging never writes the staged binary in place: the temp file and the
/// destination are different paths in the same directory, so the final
/// rename swaps in a fresh file. Target names are relative, as cargo's are.
pub proof fn staging_temp_differs_from_dest(dir: Seq<char>, bin_name: Seq<char>, pid: u32)
    requires
        !(bin_name.len() > 0 && bin_name[0] == '/'),
    ensures
        path_push(dir, spec_staging_tmp_name(bin_name, pid)) != path_push(dir, bin_name),
{
    reveal_strlit(".");
    let tmp = spec_staging_tmp_name(bin_name, pid);
    staging_tmp_name_hidden_and_distinct(bin_name, pid);
    assert(tmp[0] == '.');
    let a = path_push(dir, tmp);
    let b = path_push(dir, bin_name);
    let prefix = if dir.len() > 0 && dir.last() != '/' {
        dir + seq!['/']
    } else {
        dir
    };
    assert(a == prefix + tmp);
    assert(b == prefix + bin_name);
    if a == b {
        assert((prefix + tmp).skip(prefix.len() as int) =~= tmp);
        assert((prefix + bin_name).skip(prefix.len() as int) =~= bin_name);
    }
}

/// Where staging puts things: the staging directory, the per-process temp
/// file inside it, and the staged binary the temp file is renamed onto.
pub struct StagingPlan {
    pub dir: String,
    pub temp: String,
    pub dest: String,
}

/// The staging paths for `project` in the process `pid`.
pub fn staging_plan(project: &ProjectInfo, pid: u32) -> (r: StagingPlan)
    ensures
        r.dir@ == project.spec_staging_dir(),
        r.temp@ == path_push(
            project.spec_staging_dir(),
            spec_staging_tmp_name(project.target_name@, pid),
        ),
        r.dest@ == project.spec_staged_binary(),
{
    let dir = project.staging_dir();
    let name = staging_tmp_name(project.target_name.as_str(), pid);
    let temp = push_path(dir.as_str(), name.as_str());
    let dest = project.staged_binary();
    StagingPlan { dir, temp, dest }
}

/// Where a previously-built executable may be found when the initial build
/// fails under `--eager-start`, in order of preference: the last staged copy,
/// which is safe to run as it is, then cargo's own output, which has to be
/// staged before it runs.
pub fn stale_binary_candidates(project: &ProjectInfo, args: &CargoArgs) -> (r: (String, String))
    ensures
        r.0@ == project.spec_staged_binary(),
        r.1@ == spec_expected_binary_path(project, args),
{
    (project.staged_binary(), expected_binary_path(project, args))
}

/// Where `--eager-start` takes its previously-built executable from.
#[derive(Debug)]
pub enum StaleBinary {
    /// The last staged copy, safe to run as it is.
    Staged(String),
    /// cargo's own output, to be staged before it runs.
    CargoOutput(String),
    /// No previously-built executable exists.
    Missing,
}

/// Picks the previously-built executable for `--eager-start`, given which of
/// `stale_binary_candidates` exist: the staged copy first, then cargo's own
/// output, else none.
pub fn choose_stale_binary(
    project: &ProjectInfo,
    args: &CargoArgs,
    staged_exists: bool,
    output_exists: bool,
) -> (r: StaleBinary)
    ensures
        staged_exists ==> (r matches StaleBinary::Staged(p) && p@ == project.spec_staged_binary()),
        !staged_exists && output_exists ==> (r matches StaleBinary::CargoOutput(p) && p@
            == spec_expected_binary_path(project, args)),
        !staged_exists && !output_exists ==> r is Missing,
{
    if staged_exists {
        StaleBinary::Staged(project.staged_binary())
    } else if output_exists {
        StaleBinary::CargoOutput(expected_binary_path(project, args))
    } else {
        StaleBinary::Missing
    }
}

/// The stage of staging that failed.
#[derive(Debug, Clone, Copy, PartialEq, Eq, Structural)]
pub enum StagingStep {
    CreateDir,
    CopyToTemp,
    MakeExecutable,
    Rename,
}

/// The error reported when a staging step fails: it names the staging
/// directory, the temp file, or the destination, whichever the step wrote.
pub fn staging_failure(plan: &StagingPlan, step: StagingStep, cause: String) -> (r: Error)
    ensures
        r matches Error::StagingFailed { path, source } && source@ == cause@ && path@ == match step {
            StagingStep::CreateDir => plan.dir@,
            StagingStep::CopyToTemp | StagingStep::MakeExecutable => plan.temp@,
            StagingStep::Rename => plan.dest@,
        },
{
    let path = match step {
        StagingStep::CreateDir => plan.dir.clone(),
        StagingStep::CopyToTemp | StagingStep::MakeExecutable => plan.temp.clone(),
        StagingStep::Rename => plan.dest.clone(),
    };
    Error::StagingFailed { path, source: cause }
}

/// The arguments of `cargo <subcommand>` for the selected target, carrying
/// every forwarded `cargo run`-style flag.
pub open spec fn spec_cargo_command_args(
    subcommand: Seq<char>,
    project: &ProjectInfo,
    args: &ServeArgs,
) -> Seq<Seq<char>> {
    seq![
        subcommand,
        project.target_kind.spec_cargo_flag(),
        project.target_name@,
        "--package"@,
        project.package_name@,
        "--message-format=json"@,
    ] + args.cargo.spec_forward_flags()
}

/// The arguments of a `cargo <subcommand>` invocation for the selected
/// target, carrying every forwarded `cargo run`-style flag.
pub fn cargo_command_args(subcommand: &str, project: &ProjectInfo, args: &ServeArgs) -> (r: Vec<
    String,
>)
    ensures
        views(r@) == spec_cargo_command_args(subcommand@, project, args),
{
    let mut out: Vec<String> = Vec::new();
    out.push(subcommand.to_string());
    out.push(project.target_kind.cargo_flag().to_string());
    out.push(project.target_name.clone());
    out.push(String::from_str("--package"));
    out.push(project.package_name.clone());
    out.push(String::from_str("--message-format=json"));
    let ghost head = views(out@);
    let mut forwarded = args.cargo.forward_flags();
    out.append(&mut forwarded);
    assert(views(out@) =~= head + args.cargo.spec_forward_flags());
    assert(head =~= seq![
        subcommand@,
        project.target_kind.spec_cargo_flag(),
        project.target_name@,
        "--package"@,
        project.package_name@,
        "--message-format=json"@,
    ]);
    out
}

/// Whether some member of `kinds` is the JSON string `kind`.
pub open spec fn lists_kind(kinds: Seq<JsonValue>, kind: Seq<char>) -> bool {
    exists|i: int| 0 <= i < kinds.len() && text_of(Some(#[trigger] kinds[i])) == Some(kind)
}

/// The executable of a `compiler-artifact` message for the target `name` of
/// the given kind; nothing for any other message.
pub open spec fn spec_artifact(msg: JsonValue, name: Seq<char>, kind: TargetKindSelector) -> Option<
    Seq<char>,
> {
    let target = field(msg, "target"@);
    let kind_listed = match target {
        Some(t) => match field(t, "kind"@) {
            Some(JsonValue::Array(kinds)) => lists_kind(kinds@, kind.spec_artifact_kind()),
            _ => false,
        },
        None => false,
    };
    if text_of(field(msg, "reason"@)) == Some("compiler-artifact"@) && target is Some && text_of(
        field(target->0, "name"@),
    ) == Some(name) && kind_listed {
        text_of(field(msg, "executable"@))
    } else {
        None
    }
}

/// `spec_artifact` of the parsed line, nothing for a line that is not JSON.
pub open spec fn spec_parse_artifact(line: Seq<char>, name: Seq<char>, kind: TargetKindSelector) -> Option<
    Seq<char>,
> {
    match json_parse(line) {
        Some(msg) => spec_artifact(msg, name, kind),
        None => None,
    }
}

fn lists_artifact_kind(kinds: &Vec<JsonValue>, kind: &str) -> (r: bool)
    ensures
        r == lists_kind(kinds@, kind@),
{
    let mut i: usize = 0;
    while i < kinds.len()
        invariant
            0 <= i <= kinds.len(),
            forall|j: int| 0 <= j < i ==> text_of(Some(#[trigger] kinds@[j])) != Some(kind@),
        decreases kinds.len() - i,
    {
        match as_text(Some(&kinds[i])) {
            Some(s) => {
                if str_eq(s, kind) {
                    return true;
                }
            },
            None => {},
        }
        i = i + 1;
    }
    false
}

/// The executable path that a parsed `compiler-artifact` message reports for
/// the target `name` of the given kind.
pub fn artifact_path(msg: &JsonValue, name: &str, kind: TargetKindSelector) -> (r: Option<String>)
    ensures
        opt_view(r) == spec_artifact(*msg, name@, kind),
{
    let reason = as_text(get_field(msg, "reason"));
    let is_artifact = match reason {
        Some(s) => str_eq(s, "compiler-artifact"),
        None => false,
    };
    if !is_artifact {
        return None;
    }
    let target = match get_field(msg, "target") {
        Some(t) => t,
        None => return None,
    };
    let name_matches = match as_text(get_field(target, "name")) {
        Some(n) => str_eq(n, name),
        None => false,
    };
    if !name_matches {
        return None;
    }
    let kind_listed = match get_field(target, "kind") {
        Some(JsonValue::Array(kinds)) => lists_artifact_kind(kinds, kind.artifact_kind()),
        _ => false,
    };
    if !kind_listed {
        return None;
    }
    match as_text(get_field(msg, "executable")) {
        Some(e) => Some(e.to_string()),
        None => None,
    }
}

/// Parses one line of cargo's JSON output and extracts the executable path of
/// the selected target's `compiler-artifact` message.
pub fn parse_compiler_artifact(json_line: &str, target_name: &str, target_kind: TargetKindSelector) -> (r:
    Option<String>)
    ensures
        opt_view(r) == spec_parse_artifact(json_line@, target_name@, target_kind),
{
    match parse_json(json_line) {
        Some(msg) => artifact_path(&msg, target_name, target_kind),
        None => None,
    }
}

/// The executable that cargo's JSON output `lines` reports for the target
/// `name` of the given kind: that of the last line naming one, or nothing
/// when no line does.
pub open spec fn spec_last_artifact(lines: Seq<Seq<char>>, name: Seq<char>, kind: TargetKindSelector) -> Option<
    Seq<char>,
>
    decreases lines.len(),
{
    if lines.len() == 0 {
        None
    } else {
        match spec_parse_artifact(lines.last(), name, kind) {
            Some(p) => Some(p),
            None => spec_last_artifact(lines.drop_last(), name, kind),
        }
    }
}

/// The executable that the output lines of `cargo build` report for the
/// selected target; when several lines report one, the last wins.
pub fn last_artifact(lines: &Vec<String>, target_name: &str, target_kind: TargetKindSelector) -> (r:
    Option<String>)
    ensures
        opt_view(r) == spec_last_artifact(views(lines@), target_name@, target_kind),
{
    let ghost all = views(lines@);
    let mut found: Option<String> = None;
    let mut i: usize = 0;
    assert(all.take(0) =~= Seq::<Seq<char>>::empty());
    while i < lines.len()
        invariant
            0 <= i <= lines.len(),
            all == views(lines@),
            opt_view(found) == spec_last_artifact(all.take(i as int), target_name@, target_kind),
        decreases lines.len() - i,
    {
        let parsed = parse_compiler_artifact(lines[i].as_str(), target_name, target_kind);
        proof {
            assert(all.take(i + 1).drop_last() =~= all.take(i as int));
            assert(all.take(i + 1).last() == lines@[i as int]@);
        }
        match parsed {
            Some(path) => {
                found = Some(path);
            },
            None => {},
        }
        i = i + 1;
    }
    assert(all.take(lines.len() as int) =~= all);
    found
}

/// The last line that reports an executable for the target decides: later
/// lines that report none change nothing, and output with no such line
/// reports nothing.
pub proof fn last_matching_artifact_wins(lines: Seq<Seq<char>>, name: Seq<char>, kind: TargetKindSelector)
    ensures
        forall|i: int|
            0 <= i < lines.len() && #[trigger] spec_parse_artifact(lines[i], name, kind) is Some && (
            forall|j: int| i < j < lines.len() ==> spec_parse_artifact(lines[j], name, kind) is None)
                ==> spec_last_artifact(lines, name, kind) == spec_parse_artifact(lines[i], name, kind),
        (forall|j: int| 0 <= j < lines.len() ==> spec_parse_artifact(lines[j], name, kind) is None)
            ==> spec_last_artifact(lines, name, kind) is None,
    decreases lines.len(),
{
    if lines.len() > 0 {
        let init = lines.drop_last();
        last_matching_artifact_wins(init, name, kind);
        assert forall|i: int|
            0 <= i < lines.len() && #[trigger] spec_parse_artifact(lines[i], name, kind) is Some && (
            forall|j: int| i < j < lines.len() ==> spec_parse_artifact(lines[j], name, kind) is None)
            implies spec_last_artifact(lines, name, kind) == spec_parse_artifact(lines[i], name, kind) by {
            if i < lines.len() - 1 {
                assert(spec_parse_artifact(lines[lines.len() - 1], name, kind) is None);
                assert(init[i] == lines[i]);
                assert forall|j: int| i < j < init.len() implies spec_parse_artifact(init[j], name, kind) is None by {
                    assert(init[j] == lines[j]);
                }
            }
        }
        if forall|j: int| 0 <= j < lines.len() ==> spec_parse_artifact(lines[j], name, kind) is None {
            assert(spec_parse_artifact(lines[lines.len() - 1], name, kind) is None);
            assert forall|j: int| 0 <= j < init.len() implies spec_parse_artifact(init[j], name, kind) is None by {
                assert(init[j] == lines[j]);
            }
        }
    }
}

/// The rendered text of a `compiler-message`; nothing for other messages.
pub open spec fn spec_diagnostic(msg: JsonValue) -> Option<Seq<char>> {
    if text_of(field(msg, "reason"@)) == Some("compiler-message"@) {
        match field(msg, "message"@) {
            Some(m) => text_of(field(m, "rendered"@)),
            None => None,
        }
    } else {
        None
    }
}

/// The rendered diagnostic of a parsed `compiler-message`.
pub fn rendered_diagnostic(msg: &JsonValue) -> (r: Option<String>)
    ensures
        opt_view(r) == spec_diagnostic(*msg),
{
    let is_message = match as_text(get_field(msg, "reason")) {
        Some(s) => str_eq(s, "compiler-message"),
        None => false,
    };
    if !is_message {
        return None;
    }
    match get_field(msg, "message") {
        Some(m) => match as_text(get_field(m, "rendered")) {
            Some(text) => Some(text.to_string()),
            None => None,
        },
        None => None,
    }
}

/// The text to print for one line of cargo's JSON output: the rendered
/// output of a `compiler-message`, nothing for anything else.
pub fn diagnostic_text(json_line: &str) -> (r: Option<String>)
    ensures
        opt_view(r) == match json_parse(json_line@) {
            Some(msg) => spec_diagnostic(msg),
            None => None,
        },
{
    match parse_json(json_line) {
        Some(msg) => rendered_diagnostic(&msg),
        None => None,
    }
}

/// Where the check → build → stage pipeline stands.
#[derive(Debug)]
pub enum BuildPhase {
    /// Nothing started yet.
    Idle,
    /// `cargo check` is running.
    Checking,
    /// `cargo build` is running.
    Building,
    /// Waiting to learn whether the built executable exists at `path`.
    Locating { path: String },
    /// The executable is being copied into the staging directory.
    Staging,
    /// The pipeline has produced its result.
    Finished,
}

/// What the outside world reports back to the pipeline.
#[derive(Debug)]
pub enum BuildEvent {
    Begin,
    CheckExited { success: bool },
    /// `cargo build` exited; `artifact` is the executable its JSON output
    /// reported for the selected target, if any.
    BuildExited { success: bool, artifact: Option<String> },
    BinaryLocated { exists: bool },
    Staged { result: Result<String, Error> },
    /// Running or waiting on a cargo command failed.
    CommandFailed { cause: String },
}

/// What the pipeline asks the outside world to do next.
#[derive(Debug)]
pub enum BuildAction {
    RunCheck,
    RunBuild,
    /// Check that `path` exists; `fallback` tells that it is the expected
    /// path, because cargo's output did not name the executable.
    LocateBinary { path: String, fallback: bool },
    Stage { source: String },
    Finish(Result<String, Error>),
    Ignore,
}

/// One step of the pipeline: `next` and `action` answer `event` in `phase`.
pub open spec fn build_stepped(
    phase: BuildPhase,
    event: BuildEvent,
    project: &ProjectInfo,
    args: &ServeArgs,
    next: BuildPhase,
    action: BuildAction,
) -> bool {
    match (phase, event) {
        (BuildPhase::Idle, BuildEvent::Begin) => if args.no_check {
            next == BuildPhase::Building && action == BuildAction::RunBuild
        } else {
            next == BuildPhase::Checking && action == BuildAction::RunCheck
        },
        (BuildPhase::Checking, BuildEvent::CheckExited { success }) => if success {
            next == BuildPhase::Building && action == BuildAction::RunBuild
        } else {
            next == BuildPhase::Finished && action == BuildAction::Finish(Err(Error::CheckFailed))
        },
        (BuildPhase::Building, BuildEvent::BuildExited { success, artifact }) => if !success {
            next == BuildPhase::Finished && action == BuildAction::Finish(Err(Error::BuildFailed))
        } else {
            match artifact {
                Some(path) => next == BuildPhase::Locating { path }
                    && action == BuildAction::LocateBinary { path, fallback: false },
                None => next matches BuildPhase::Locating { path } && path@
                    == spec_expected_binary_path(project, &args.cargo)
                    && action == BuildAction::LocateBinary { path, fallback: true },
            }
        },
        (BuildPhase::Locating { path }, BuildEvent::BinaryLocated { exists }) => if exists {
            next == BuildPhase::Staging && action == BuildAction::Stage { source: path }
        } else {
            next == BuildPhase::Finished && action == BuildAction::Finish(
                Err(Error::BinaryNotFoundInOutput),
            )
        },
        (BuildPhase::Staging, BuildEvent::Staged { result }) => next == BuildPhase::Finished
            && action == BuildAction::Finish(result),
        (BuildPhase::Checking, BuildEvent::CommandFailed { cause }) => next
            == BuildPhase::Finished && action == BuildAction::Finish(Err(Error::Io(cause))),
        (BuildPhase::Building, BuildEvent::CommandFailed { cause }) => next
            == BuildPhase::Finished && action == BuildAction::Finish(Err(Error::Io(cause))),
        (phase, _) => next == phase && action == BuildAction::Ignore,
    }
}

/// `cargo build` runs only once it may: straight away when the check is
/// skipped, otherwise only after a passing `cargo check`.
pub proof fn build_only_after_check(
    phase: BuildPhase,
    event: BuildEvent,
    project: &ProjectInfo,
    args: &ServeArgs,
    next: BuildPhase,
    action: BuildAction,
)
    requires
        build_stepped(phase, event, project, args, next, action),
        action is RunBuild,
    ensures
        ((phase is Idle && event is Begin && args.no_check) || (phase is Checking && event
            == BuildEvent::CheckExited { success: true })),
{
}

/// A failed check or build never reaches staging: staging starts only from
/// an executable known to exist, located after a successful build.
pub proof fn stage_only_after_successful_build(
    phase: BuildPhase,
    event: BuildEvent,
    project: &ProjectInfo,
    args: &ServeArgs,
    next: BuildPhase,
    action: BuildAction,
)
    requires
        build_stepped(phase, event, project, args, next, action),
    ensures
        (action is Stage ==> phase is Locating && event == BuildEvent::BinaryLocated { exists: true }),
        (next is Locating && !(phase is Locating) ==> phase is Building && (event matches BuildEvent::BuildExited { success: true, .. })),
        (event == BuildEvent::CheckExited { success: false } && phase is Checking ==> action
            == BuildAction::Finish(Err(Error::CheckFailed))),
{
}

impl BuildPhase {
    /// Advances the pipeline by one event: `cargo check` first unless it is
    /// skipped, `cargo build` only after a passing check, the executable
    /// named by cargo's output or else at its expected path, and staging
    /// only once that executable is known to exist.
    pub fn advance(self, event: BuildEvent, project: &ProjectInfo, args: &ServeArgs) -> (r: (
        BuildPhase,
        BuildAction,
    ))
        ensures
            build_stepped(self, event, project, args, r.0, r.1),
    {
        match (self, event) {
            (BuildPhase::Idle, BuildEvent::Begin) => {
                if args.no_check {
                    (BuildPhase::Building, BuildAction::RunBuild)
                } else {
                    (BuildPhase::Checking, BuildAction::RunCheck)
                }
            },
            (BuildPhase::Checking, BuildEvent::CheckExited { success }) => {
                if success {
                    (BuildPhase::Building, BuildAction::RunBuild)
                } else {
                    (BuildPhase::Finished, BuildAction::Finish(Err(Error::CheckFailed)))
                }
            },
            (BuildPhase::Building, BuildEvent::BuildExited { success, artifact }) => {
                if !success {
                    (BuildPhase::Finished, BuildAction::Finish(Err(Error::BuildFailed)))
                } else {
                    match artifact {
                        Some(path) => {
                            let located = path.clone();
                            (
                                BuildPhase::Locating { path },
                                BuildAction::LocateBinary { path: located, fallback: false },
                            )
                        },
                        None => {
                            let path = expected_binary_path(project, &args.cargo);
                            let located = path.clone();
                            (
                                BuildPhase::Locating { path },
                                BuildAction::LocateBinary { path: located, fallback: true },
                            )
                        },
                    }
                }
            },
            (BuildPhase::Locating { path }, BuildEvent::BinaryLocated { exists }) => {
                if exists {
                    (BuildPhase::Staging, BuildAction::Stage { source: path })
                } else {
                    (
                        BuildPhase::Finished,
                        BuildAction::Finish(Err(Error::BinaryNotFoundInOutput)),
                    )
                }
            },
            (BuildPhase::Staging, BuildEvent::Staged { result }) => {
                (BuildPhase::Finished, BuildAction::Finish(result))
            },
            (BuildPhase::Checking, BuildEvent::CommandFailed { cause }) => {
                (BuildPhase::Finished, BuildAction::Finish(Err(Error::Io(cause))))
            },
            (BuildPhase::Building, BuildEvent::CommandFailed { cause }) => {
                (BuildPhase::Finished, BuildAction::Finish(Err(Error::Io(cause))))
            },
            (phase, _) => (phase, BuildAction::Ignore),
        }
    }
}

} // verus!
