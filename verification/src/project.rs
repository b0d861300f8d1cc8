//! The project being served: which package and executable target, and where
//! cargo puts its artifacts.
use vstd::prelude::*;
use vstd::string::*;

use crate::cli::CargoArgs;
use crate::error::Error;
use crate::text::{
    has_dot_component, has_double_slash, opt_str_view, opt_view, path_push, push_path, str_eq,
    str_views, views,
};

verus! {

/// Which kind of executable target is being served. Binaries and examples
/// both produce an executable, but examples land in an `examples/`
/// subdirectory of the profile directory.
#[derive(Debug, Clone, Copy, PartialEq, Eq, Structural)]
pub enum TargetKindSelector {
    Bin,
    Example,
}

impl Default for TargetKindSelector {
    fn default() -> (r: Self)
        ensures
            r == TargetKindSelector::Bin,
    {
        TargetKindSelector::Bin
    }
}

impl TargetKindSelector {
    pub open spec fn spec_cargo_flag(self) -> Seq<char> {
        match self {
            TargetKindSelector::Bin => "--bin"@,
            TargetKindSelector::Example => "--example"@,
        }
    }

    pub open spec fn spec_artifact_kind(self) -> Seq<char> {
        match self {
            TargetKindSelector::Bin => "bin"@,
            TargetKindSelector::Example => "example"@,
        }
    }

    pub open spec fn spec_artifact_subdir(self) -> Option<Seq<char>> {
        match self {
            TargetKindSelector::Bin => None,
            TargetKindSelector::Example => Some("examples"@),
        }
    }

    /// The cargo flag that selects this kind of target.
    pub fn cargo_flag(self) -> (r: &'static str)
        ensures
            r@ == self.spec_cargo_flag(),
    {
        match self {
            TargetKindSelector::Bin => "--bin",
            TargetKindSelector::Example => "--example",
        }
    }

    /// The `kind` string cargo reports in `compiler-artifact` messages.
    pub fn artifact_kind(self) -> (r: &'static str)
        ensures
            r@ == self.spec_artifact_kind(),
    {
        match self {
            TargetKindSelector::Bin => "bin",
            TargetKindSelector::Example => "example",
        }
    }

    /// Subdirectory of the profile directory holding this kind of artifact.
    pub fn artifact_subdir(self) -> (r: Option<&'static str>)
        ensures
            match r {
                Some(s) => self.spec_artifact_subdir() == Some(s@),
                None => self.spec_artifact_subdir() is None,
            },
    {
        match self {
            TargetKindSelector::Bin => None,
            TargetKindSelector::Example => Some("examples"),
        }
    }
}

/// The resolved package and target, with the directories cargo uses.
#[derive(Debug)]
pub struct ProjectInfo {
    pub package_name: String,
    pub target_name: String,
    pub target_kind: TargetKindSelector,
    pub target_dir: String,
    pub workspace_root: String,
}

impl ProjectInfo {
    pub open spec fn spec_staging_dir(&self) -> Seq<char> {
        path_push(self.target_dir@, ".cargo-serve"@)
    }

    pub open spec fn spec_staged_binary(&self) -> Seq<char> {
        path_push(self.spec_staging_dir(), self.target_name@)
    }

    /// Directory where staged binaries are placed.
    pub fn staging_dir(&self) -> (r: String)
        ensures
            r@ == self.spec_staging_dir(),
    {
        push_path(self.target_dir.as_str(), ".cargo-serve")
    }

    /// Path to the staged binary.
    pub fn staged_binary(&self) -> (r: String)
        ensures
            r@ == self.spec_staged_binary(),
    {
        let dir = self.staging_dir();
        push_path(dir.as_str(), self.target_name.as_str())
    }

    /// Resolves the project from the workspace metadata that `cargo metadata`
    /// reported under `args.metadata_flags()`.
    ///
    /// The package is chosen by `select_package`, the target by
    /// `resolve_target`; a `--target-dir` override replaces the metadata's
    /// target directory, since `cargo metadata` does not reflect it.
    pub fn discover(args: &CargoArgs, metadata: &WorkspaceMetadata) -> (r: Result<
        ProjectInfo,
        Error,
    >)
        ensures
            discovered(args, metadata, &r),
    {
        let spec_arg = as_str_option(&args.package);
        let package = match select_package(metadata, spec_arg) {
            Ok(p) => p,
            Err(e) => return Err(e),
        };
        let bins = target_names(package, TargetKindSelector::Bin);
        let examples = target_names(package, TargetKindSelector::Example);
        let resolved = resolve_target(
            as_str_option(&args.bin),
            as_str_option(&args.example),
            bins.as_slice(),
            examples.as_slice(),
            as_str_option(&package.default_run),
            package.name.as_str(),
        );
        let (target_name, target_kind) = match resolved {
            Ok(t) => t,
            Err(e) => return Err(e),
        };
        let target_dir = match &args.target_dir {
            Some(dir) => match resolve_target_dir(dir.as_str()) {
                Ok(d) => d,
                Err(e) => return Err(e),
            },
            None => metadata.target_directory.clone(),
        };
        Ok(
            ProjectInfo {
                package_name: package.name.clone(),
                target_name,
                target_kind,
                target_dir,
                workspace_root: metadata.workspace_root.clone(),
            },
        )
    }
}

/// A target of a package, reduced to what target selection reads.
#[derive(Debug)]
pub struct TargetInfo {
    pub name: String,
    pub is_bin: bool,
    pub is_example: bool,
}

/// A workspace package, reduced to what package and target selection read.
#[derive(Debug)]
pub struct PackageInfo {
    pub name: String,
    /// The package version as cargo prints it, e.g. `2.3.4`.
    pub version: String,
    pub targets: Vec<TargetInfo>,
    pub default_run: Option<String>,
}

/// The parts of `cargo metadata`'s report that discovery reads.
#[derive(Debug)]
pub struct WorkspaceMetadata {
    /// The workspace members, in the order cargo lists them.
    pub members: Vec<PackageInfo>,
    /// The package in the current directory, if any.
    pub root_package: Option<PackageInfo>,
    pub target_directory: String,
    pub workspace_root: String,
}

fn as_str_option(o: &Option<String>) -> (r: Option<&str>)
    ensures
        opt_str_view(r) == opt_view(*o),
{
    match o {
        Some(s) => Some(s.as_str()),
        None => None,
    }
}

pub open spec fn has_kind(t: TargetInfo, kind: TargetKindSelector) -> bool {
    match kind {
        TargetKindSelector::Bin => t.is_bin,
        TargetKindSelector::Example => t.is_example,
    }
}

/// Names of the targets of the given kind, in order.
pub open spec fn names_of_kind(targets: Seq<TargetInfo>, kind: TargetKindSelector) -> Seq<
    Seq<char>,
>
    decreases targets.len(),
{
    if targets.len() == 0 {
        Seq::empty()
    } else {
        let init = names_of_kind(targets.drop_last(), kind);
        if has_kind(targets.last(), kind) {
            init.push(targets.last().name@)
        } else {
            init
        }
    }
}

/// Names of the package's targets of the given kind.
pub fn target_names(package: &PackageInfo, kind: TargetKindSelector) -> (r: Vec<&str>)
    ensures
        str_views(r@) == names_of_kind(package.targets@, kind),
{
    let mut out: Vec<&str> = Vec::new();
    let mut i: usize = 0;
    while i < package.targets.len()
        invariant
            0 <= i <= package.targets.len(),
            str_views(out@) == names_of_kind(package.targets@.take(i as int), kind),
        decreases package.targets.len() - i,
    {
        let t = &package.targets[i];
        let ghost before = out@;
        let wanted = match kind {
            TargetKindSelector::Bin => t.is_bin,
            TargetKindSelector::Example => t.is_example,
        };
        if wanted {
            out.push(t.name.as_str());
        }
        proof {
            let ts = package.targets@;
            assert(ts.take(i + 1).drop_last() =~= ts.take(i as int));
            assert(str_views(out@) =~= names_of_kind(ts.take(i + 1), kind));
        }
        i = i + 1;
    }
    assert(package.targets@.take(package.targets.len() as int) =~= package.targets@);
    out
}

/// Position of the first `c` in `s`.
pub open spec fn first_index_of(s: Seq<char>, c: char) -> Option<int>
    decreases s.len(),
{
    if s.len() == 0 {
        None
    } else if s[0] == c {
        Some(0)
    } else {
        match first_index_of(s.drop_first(), c) {
            Some(i) => Some(i + 1),
            None => None,
        }
    }
}

proof fn lemma_first_index_of(s: Seq<char>, c: char)
    ensures
        match first_index_of(s, c) {
            Some(i) => 0 <= i < s.len() && s[i] == c && forall|j: int| 0 <= j < i ==> s[j] != c,
            None => forall|j: int| 0 <= j < s.len() ==> s[j] != c,
        },
    decreases s.len(),
{
    if s.len() > 0 && s[0] != c {
        lemma_first_index_of(s.drop_first(), c);
        match first_index_of(s.drop_first(), c) {
            Some(i) => {
                assert forall|j: int| 0 <= j < i + 1 implies s[j] != c by {
                    if j > 0 {
                        assert(s[j] == s.drop_first()[j - 1]);
                    }
                }
            },
            None => {
                assert forall|j: int| 0 <= j < s.len() implies s[j] != c by {
                    if j > 0 {
                        assert(s[j] == s.drop_first()[j - 1]);
                    }
                }
            },
        }
    }
}

/// Whether a package answers to a cargo package spec, in either of the two
/// spellings used on a command line: `name` and `name@version` (split at the
/// first `@`).
pub open spec fn spec_matches(name: Seq<char>, version: Seq<char>, spec: Seq<char>) -> bool {
    match first_index_of(spec, '@') {
        Some(i) => name == spec.take(i) && version == spec.skip(i + 1),
        None => name == spec,
    }
}

/// A package answers to a spec exactly when the spec is its name, or its
/// name, `@` and its version; package names hold no `@`. In particular a
/// package never answers to a spec naming another package, whatever the
/// versions.
pub proof fn package_spec_names_the_package(name: Seq<char>, version: Seq<char>, spec: Seq<char>)
    requires
        forall|j: int| 0 <= j < name.len() ==> name[j] != '@',
    ensures
        spec_matches(name, version, spec) <==> (spec == name || spec == name + seq!['@'] + version),
{
    lemma_first_index_of(spec, '@');
    let whole = name + seq!['@'] + version;
    if spec == whole {
        assert(whole[name.len() as int] == '@');
        assert forall|j: int| 0 <= j < name.len() implies whole[j] != '@' by {
            assert(whole[j] == name[j]);
        }
        match first_index_of(spec, '@') {
            Some(i) => {
                assert(i == name.len());
                assert(spec.take(i) =~= name);
                assert(spec.skip(i + 1) =~= version);
            },
            None => {
                assert(spec[name.len() as int] == '@');
            },
        }
    }
    if spec == name {
        match first_index_of(spec, '@') {
            Some(i) => {
                assert(spec[i] == '@');
            },
            None => {},
        }
    }
    if spec_matches(name, version, spec) {
        match first_index_of(spec, '@') {
            Some(i) => {
                assert(spec =~= spec.take(i) + seq!['@'] + spec.skip(i + 1));
            },
            None => {},
        }
    }
}

/// Whether `package` answers to the package spec `spec`.
pub fn package_matches_spec(package: &PackageInfo, spec: &str) -> (r: bool)
    ensures
        r == spec_matches(package.name@, package.version@, spec@),
{
    let n: usize = spec.unicode_len();
    let mut i: usize = 0;
    while i < n
        invariant
            0 <= i <= n,
            n == spec@.len(),
            forall|j: int| 0 <= j < i ==> spec@[j] != '@',
        decreases n - i,
    {
        if spec.get_char(i) == '@' {
            proof {
                lemma_first_index_of(spec@, '@');
                assert(first_index_of(spec@, '@') == Some(i as int));
            }
            let name = spec.substring_char(0, i);
            let version = spec.substring_char(i + 1, n);
            assert(spec@.take(i as int) =~= name@);
            assert(spec@.skip(i + 1) =~= version@);
            return str_eq(package.name.as_str(), name) && str_eq(
                package.version.as_str(),
                version,
            );
        }
        i = i + 1;
    }
    proof {
        lemma_first_index_of(spec@, '@');
        if first_index_of(spec@, '@') is Some {
            let k = first_index_of(spec@, '@')->0;
            assert(spec@[k] == '@');
        }
    }
    str_eq(package.name.as_str(), spec)
}

/// Index of the first member answering to `spec`.
pub open spec fn first_match(members: Seq<PackageInfo>, spec: Seq<char>) -> Option<int>
    decreases members.len(),
{
    if members.len() == 0 {
        None
    } else if spec_matches(members[0].name@, members[0].version@, spec) {
        Some(0)
    } else {
        match first_match(members.drop_first(), spec) {
            Some(i) => Some(i + 1),
            None => None,
        }
    }
}

pub open spec fn member_names(members: Seq<PackageInfo>) -> Seq<Seq<char>> {
    members.map_values(|p: PackageInfo| p.name@)
}

/// What `select_package` answers: an explicit spec picks the first matching
/// member; otherwise the package in the current directory; otherwise the
/// only member of a one-package workspace.
pub open spec fn package_selected(
    metadata: &WorkspaceMetadata,
    spec: Option<Seq<char>>,
    r: Result<&PackageInfo, Error>,
) -> bool {
    let members = metadata.members@;
    match spec {
        Some(s) => match first_match(members, s) {
            Some(i) => r matches Ok(p) && *p == members[i],
            None => r matches Err(Error::PackageNotFound { spec: sp, available }) && sp@ == s
                && views(available@) == member_names(members),
        },
        None => match metadata.root_package {
            Some(root) => r matches Ok(p) && *p == root,
            None => if members.len() == 1 {
                r matches Ok(p) && *p == members[0]
            } else {
                r matches Err(Error::NoCurrentPackage { available }) && views(available@)
                    == member_names(members)
            },
        },
    }
}

proof fn lemma_first_match(members: Seq<PackageInfo>, spec: Seq<char>)
    ensures
        match first_match(members, spec) {
            Some(i) => 0 <= i < members.len() && spec_matches(
                members[i].name@,
                members[i].version@,
                spec,
            ) && forall|j: int|
                0 <= j < i ==> !spec_matches(
                    #[trigger] members[j].name@,
                    members[j].version@,
                    spec,
                ),
            None => forall|j: int|
                0 <= j < members.len() ==> !spec_matches(
                    #[trigger] members[j].name@,
                    members[j].version@,
                    spec,
                ),
        },
    decreases members.len(),
{
    if members.len() > 0 && !spec_matches(members[0].name@, members[0].version@, spec) {
        lemma_first_match(members.drop_first(), spec);
        assert forall|j: int| 1 <= j < members.len() implies members[j] == members.drop_first()[j
            - 1] by {}
    }
}

fn package_names(members: &Vec<PackageInfo>) -> (r: Vec<String>)
    ensures
        views(r@) == member_names(members@),
{
    let mut out: Vec<String> = Vec::new();
    let mut i: usize = 0;
    while i < members.len()
        invariant
            0 <= i <= members.len(),
            views(out@) == member_names(members@.take(i as int)),
        decreases members.len() - i,
    {
        let ghost o = out@;
        let name = members[i].name.clone();
        out.push(name);
        proof {
            assert(views(out@) =~= views(o).push(members@[i as int].name@));
            assert(views(out@) =~= member_names(members@.take(i + 1)));
        }
        i = i + 1;
    }
    assert(members@.take(members.len() as int) =~= members@);
    out
}

/// Picks the workspace package to serve, as `cargo run` does: an explicit
/// `-p` wins, otherwise the package in the current directory. In a virtual
/// workspace with several members there is no current package, so `-p` is
/// required.
pub fn select_package<'a>(metadata: &'a WorkspaceMetadata, spec: Option<&str>) -> (r: Result<
    &'a PackageInfo,
    Error,
>)
    ensures
        package_selected(metadata, opt_str_view(spec), r),
{
    let members = &metadata.members;
    match spec {
        Some(s) => {
            let mut i: usize = 0;
            while i < members.len()
                invariant
                    0 <= i <= members.len(),
                    spec == Some(s),
                    members@ == metadata.members@,
                    forall|j: int|
                        0 <= j < i ==> !spec_matches(
                            #[trigger] members@[j].name@,
                            members@[j].version@,
                            s@,
                        ),
                decreases members.len() - i,
            {
                if package_matches_spec(&members[i], s) {
                    proof {
                        lemma_first_match(members@, s@);
                        match first_match(members@, s@) {
                            Some(k) => {
                                if k < i {
                                    assert(!spec_matches(
                                        members@[k].name@,
                                        members@[k].version@,
                                        s@,
                                    ));
                                }
                                assert(k == i);
                            },
                            None => {
                                assert(spec_matches(
                                    members@[i as int].name@,
                                    members@[i as int].version@,
                                    s@,
                                ));
                            },
                        }
                    }
                    let found = &members[i];
                    assert(first_match(members@, s@) == Some(i as int));
                    assert(*found == members@[i as int]);
                    return Ok(found);
                }
                i = i + 1;
            }
            proof {
                lemma_first_match(members@, s@);
                match first_match(members@, s@) {
                    Some(k) => {
                        assert(!spec_matches(members@[k].name@, members@[k].version@, s@));
                    },
                    None => {},
                }
            }
            Err(Error::PackageNotFound { spec: s.to_string(), available: package_names(members) })
        },
        None => {
            match &metadata.root_package {
                Some(root) => Ok(root),
                None => {
                    if members.len() == 1 {
                        Ok(&members[0])
                    } else {
                        Err(Error::NoCurrentPackage { available: package_names(members) })
                    }
                },
            }
        },
    }
}

/// The answer of `resolve_target` once a target name has been requested:
/// found among the targets of that kind, or a `TargetNotFound` error naming
/// the kind, the target and the package.
pub open spec fn target_required(
    r: Result<(String, TargetKindSelector), Error>,
    name: Seq<char>,
    kind: TargetKindSelector,
    available: Seq<Seq<char>>,
    package: Seq<char>,
) -> bool {
    if available.contains(name) {
        r matches Ok((n, k)) && n@ == name && k == kind
    } else {
        r matches Err(Error::TargetNotFound { kind: kk, name: n, package: p }) && kk@
            == kind.spec_artifact_kind() && n@ == name && p@ == package
    }
}

/// Target selection: an explicit `--example`, then `--bin`, then the
/// package's `default-run`, then the sole binary when there is exactly one.
pub open spec fn target_resolved(
    requested_bin: Option<Seq<char>>,
    requested_example: Option<Seq<char>>,
    bins: Seq<Seq<char>>,
    examples: Seq<Seq<char>>,
    default_run: Option<Seq<char>>,
    package: Seq<char>,
    r: Result<(String, TargetKindSelector), Error>,
) -> bool {
    match requested_example {
        Some(e) => target_required(r, e, TargetKindSelector::Example, examples, package),
        None => match requested_bin {
            Some(b) => target_required(r, b, TargetKindSelector::Bin, bins, package),
            None => match default_run {
                Some(d) => target_required(r, d, TargetKindSelector::Bin, bins, package),
                None => if bins.len() == 0 {
                    r matches Err(Error::NoBinaryTarget)
                } else if bins.len() == 1 {
                    r matches Ok((n, k)) && n@ == bins[0] && k == TargetKindSelector::Bin
                } else {
                    r matches Err(Error::MultipleBinaryTargets { targets }) && views(targets@)
                        == bins
                },
            },
        },
    }
}

fn contains_name(available: &[&str], name: &str) -> (r: bool)
    ensures
        r == str_views(available@).contains(name@),
{
    let mut i: usize = 0;
    while i < available.len()
        invariant
            0 <= i <= available.len(),
            forall|j: int| 0 <= j < i ==> available@[j]@ != name@,
        decreases available.len() - i,
    {
        if str_eq(available[i], name) {
            assert(str_views(available@)[i as int] == name@);
            return true;
        }
        i = i + 1;
    }
    proof {
        if str_views(available@).contains(name@) {
            let k: int = choose|k: int|
                0 <= k < str_views(available@).len() && str_views(available@)[k] == name@;
            assert(available@[k]@ == name@);
        }
    }
    false
}

fn require_target(name: &str, kind: TargetKindSelector, available: &[&str], package: &str) -> (r:
    Result<(String, TargetKindSelector), Error>)
    ensures
        target_required(r, name@, kind, str_views(available@), package@),
{
    if contains_name(available, name) {
        Ok((name.to_string(), kind))
    } else {
        Err(
            Error::TargetNotFound {
                kind: kind.artifact_kind(),
                name: name.to_string(),
                package: package.to_string(),
            },
        )
    }
}

fn owned_names(names: &[&str]) -> (r: Vec<String>)
    ensures
        views(r@) == str_views(names@),
{
    let mut out: Vec<String> = Vec::new();
    let mut i: usize = 0;
    while i < names.len()
        invariant
            0 <= i <= names.len(),
            views(out@) == str_views(names@.take(i as int)),
        decreases names.len() - i,
    {
        let ghost o = out@;
        let name = names[i].to_string();
        assert(name@ == names@[i as int]@);
        out.push(name);
        proof {
            assert(views(out@) =~= views(o).push(names@[i as int]@));
            assert(views(out@) =~= str_views(names@.take(i + 1)));
        }
        i = i + 1;
    }
    assert(names@.take(names.len() as int) =~= names@);
    out
}

/// Selects which executable target to run.
///
/// Precedence: an explicit `--example`, then `--bin`, then the package's
/// `default-run`, then the sole binary when there is only one. With several
/// binaries and neither `--bin` nor `default-run`, the caller must
/// disambiguate.
pub fn resolve_target(
    requested_bin: Option<&str>,
    requested_example: Option<&str>,
    bin_targets: &[&str],
    example_targets: &[&str],
    default_run: Option<&str>,
    package: &str,
) -> (r: Result<(String, TargetKindSelector), Error>)
    ensures
        target_resolved(
            opt_str_view(requested_bin),
            opt_str_view(requested_example),
            str_views(bin_targets@),
            str_views(example_targets@),
            opt_str_view(default_run),
            package@,
            r,
        ),
{
    if let Some(name) = requested_example {
        return require_target(name, TargetKindSelector::Example, example_targets, package);
    }
    if let Some(name) = requested_bin {
        return require_target(name, TargetKindSelector::Bin, bin_targets, package);
    }
    if let Some(name) = default_run {
        return require_target(name, TargetKindSelector::Bin, bin_targets, package);
    }
    if bin_targets.len() == 0 {
        Err(Error::NoBinaryTarget)
    } else if bin_targets.len() == 1 {
        Ok((bin_targets[0].to_string(), TargetKindSelector::Bin))
    } else {
        Err(Error::MultipleBinaryTargets { targets: owned_names(bin_targets) })
    }
}

pub open spec fn is_absolute(p: Seq<char>) -> bool {
    p.len() > 0 && p[0] == '/'
}

/// A path written without a repeated separator or a `.` component, which
/// `std::path::absolute` has nothing to normalise in.
pub open spec fn is_plain_path(p: Seq<char>) -> bool {
    p.len() > 0 && !has_double_slash(p) && !has_dot_component(p)
}

/// What `std::path::absolute` is documented to give for `path`: an absolute
/// path; `path` itself when it is already absolute and plain; and, for a
/// plain relative `path`, the current directory joined with it, which ends
/// in a separator followed by `path`.
pub open spec fn absolute_form_of(path: Seq<char>, abs: Seq<char>) -> bool {
    &&& is_absolute(abs)
    &&& (is_absolute(path) && is_plain_path(path) ==> abs == path)
    &&& (!is_absolute(path) && is_plain_path(path) ==> abs.len() > path.len() && abs.subrange(
        abs.len() - path.len() - 1,
        abs.len() as int,
    ) == seq!['/'] + path)
}

/// `std::path::absolute`: makes `path` absolute against the current
/// directory, without touching the filesystem. The claims are those of its
/// documentation: an empty path is an error; an absolute path with nothing
/// to normalise comes back as it is; any result is absolute and, for a plain
/// relative path, the current directory joined with it. The current
/// directory itself, and whether reading it fails, are not stated.
#[verifier::external_body]
fn absolute_path(path: &str) -> (r: Result<String, String>)
    ensures
        path@.len() == 0 ==> r is Err,
        is_absolute(path@) && is_plain_path(path@) ==> r is Ok,
        r matches Ok(p) ==> absolute_form_of(path@, p@),
{
    match std::path::absolute(std::path::Path::new(path)) {
        Ok(p) => Ok(p.to_string_lossy().into_owned()),
        Err(e) => Err(e.to_string()),
    }
}

/// `Path::canonicalize`: the absolute, symlink-resolved form of an existing
/// path. The claim is only that a result is absolute; whether the path exists
/// and what it resolves to depend on the filesystem and are not stated.
#[verifier::external_body]
fn canonical_path(path: &str) -> (r: Option<String>)
    ensures
        r matches Some(p) ==> is_absolute(p@),
{
    match std::path::Path::new(path).canonicalize() {
        Ok(p) => Some(p.to_string_lossy().into_owned()),
        Err(_) => None,
    }
}

/// The target directory chosen from the absolute form of `--target-dir` and
/// its canonical form: the canonical one when the directory resolved, the
/// absolute one otherwise (on a first run the directory does not exist yet).
pub open spec fn spec_pick_target_dir(absolute: Seq<char>, canonical: Option<Seq<char>>) -> Seq<
    char,
> {
    match canonical {
        Some(c) => c,
        None => absolute,
    }
}

/// Chooses the target directory from the absolute form of `--target-dir`
/// and, when it resolved, its canonical form.
pub fn pick_target_dir(absolute: String, canonical: Option<String>) -> (r: String)
    ensures
        r@ == spec_pick_target_dir(absolute@, opt_view(canonical)),
{
    match canonical {
        Some(c) => c,
        None => absolute,
    }
}

/// `p` is what resolving `--target-dir` `dir` may give: the pick between an
/// absolute form of `dir` and, when canonicalisation succeeded, an absolute
/// canonical form of that absolute path.
pub open spec fn target_dir_resolved(dir: Seq<char>, p: Seq<char>) -> bool {
    exists|abs: Seq<char>, canonical: Option<Seq<char>>|
        #![trigger absolute_form_of(dir, abs), spec_pick_target_dir(abs, canonical)]
        absolute_form_of(dir, abs) && (canonical matches Some(c) ==> is_absolute(c)) && p
            == spec_pick_target_dir(abs, canonical)
}

/// Resolves a `--target-dir` the way cargo does, relative to the invocation
/// directory, in the absolute and (when the directory exists)
/// symlink-resolved shape of `cargo metadata`'s `target_directory`. A plain
/// absolute directory always resolves, to itself when canonicalisation
/// fails; an error comes only from making the path absolute.
pub fn resolve_target_dir(dir: &str) -> (r: Result<String, Error>)
    ensures
        dir@.len() == 0 ==> r matches Err(Error::Io(_)),
        is_absolute(dir@) && is_plain_path(dir@) ==> r is Ok,
        r matches Ok(p) ==> target_dir_resolved(dir@, p@),
        r matches Err(e) ==> e is Io,
{
    match absolute_path(dir) {
        Ok(absolute) => {
            let canonical = canonical_path(absolute.as_str());
            let ghost abs = absolute@;
            let ghost canon = opt_view(canonical);
            let picked = pick_target_dir(absolute, canonical);
            assert(absolute_form_of(dir@, abs) && (canon matches Some(c) ==> is_absolute(c))
                && picked@ == spec_pick_target_dir(abs, canon));
            Ok(picked)
        },
        Err(message) => Err(Error::Io(message)),
    }
}

/// What `discover` answers: the selected package's resolved target, the
/// target directory (the metadata's, or what the `--target-dir` override
/// resolves to), and the workspace root. An error of package or target
/// selection is passed on unchanged; resolving the override fails, with an
/// `Io` error, only for a directory that is not plain and absolute.
pub open spec fn discovered(
    args: &CargoArgs,
    metadata: &WorkspaceMetadata,
    r: &Result<ProjectInfo, Error>,
) -> bool {
    let members = metadata.members@;
    let spec = opt_view(args.package);
    exists|sel: Result<&PackageInfo, Error>|
        #![trigger package_selected(metadata, spec, sel)]
        package_selected(metadata, spec, sel) && match sel {
            Err(e) => *r == Err::<ProjectInfo, Error>(e),
            Ok(p) => exists|res: Result<(String, TargetKindSelector), Error>|
                #![trigger target_resolved(
                    opt_view(args.bin),
                    opt_view(args.example),
                    names_of_kind(p.targets@, TargetKindSelector::Bin),
                    names_of_kind(p.targets@, TargetKindSelector::Example),
                    opt_view(p.default_run),
                    p.name@,
                    res,
                )]
                target_resolved(
                    opt_view(args.bin),
                    opt_view(args.example),
                    names_of_kind(p.targets@, TargetKindSelector::Bin),
                    names_of_kind(p.targets@, TargetKindSelector::Example),
                    opt_view(p.default_run),
                    p.name@,
                    res,
                ) && match res {
                    Err(e) => *r == Err::<ProjectInfo, Error>(e),
                    Ok((name, kind)) => match *r {
                        Ok(info) => info.package_name@ == p.name@ && info.target_name@ == name@
                            && info.target_kind == kind && info.workspace_root@
                            == metadata.workspace_root@ && match args.target_dir {
                            Some(d) => target_dir_resolved(d@, info.target_dir@),
                            None => info.target_dir@ == metadata.target_directory@,
                        },
                        Err(e) => (args.target_dir matches Some(d) && !(is_absolute(d@)
                            && is_plain_path(d@))) && e is Io,
                    },
                },
        }
}

} // verus!
