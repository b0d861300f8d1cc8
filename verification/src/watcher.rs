//! File-watching decisions: which paths to ignore, which events call for a
//! rebuild, and the debouncing of bursts of changes.
use vstd::prelude::*;
use vstd::string::*;

use crate::text::{has_double_slash, opt_view, path_push, push_path, views};

verus! {

/// What `Path::strip_prefix` gives for `path` and `base`, as text: the part
/// of `path` after the components of `base`, or nothing when `base` is not a
/// component-wise prefix of `path`.
pub uninterp spec fn path_relative_to(path: Seq<char>, base: Seq<char>) -> Option<Seq<char>>;

/// `Path::new(path).strip_prefix(base)`, as text. The claims are that the
/// same two paths always give the same answer, and, as the documentation
/// shows, that a path stripped of itself leaves the empty path. Which paths
/// are component-wise prefixes of which is not stated.
#[verifier::external_body]
fn relative_path(path: &str, base: &str) -> (r: Option<String>)
    ensures
        opt_view(r) == path_relative_to(path@, base@),
        path@ == base@ ==> opt_view(r) == Some(Seq::<char>::empty()),
{
    match std::path::Path::new(path).strip_prefix(base) {
        Ok(rest) => match rest.to_str() {
            Some(text) => Some(text.to_string()),
            None => None,
        },
        Err(_) => None,
    }
}

/// The anchored directory pattern for a target directory at `relative`
/// inside the workspace; none for the workspace root itself, whose pattern
/// would silence every change.
pub open spec fn spec_pattern_for(relative: Option<Seq<char>>) -> Option<Seq<char>> {
    match relative {
        Some(rel) => if rel.len() == 0 {
            None
        } else {
            Some("/"@ + rel + "/"@)
        },
        None => None,
    }
}

/// The gitignore pattern for a target directory found at `relative` inside
/// the workspace (`None`: not inside it).
pub fn pattern_for_relative(relative: Option<&str>) -> (r: Option<String>)
    ensures
        opt_view(r) == spec_pattern_for(
            match relative {
                Some(s) => Some(s@),
                None => None,
            },
        ),
{
    match relative {
        Some(rel) => {
            if rel.unicode_len() == 0 {
                None
            } else {
                let mut out = String::from_str("/");
                out.append(rel);
                out.append("/");
                Some(out)
            }
        },
        None => None,
    }
}

/// Gitignore pattern hiding the build output directory, when it sits inside
/// the watched workspace. A target directory outside the workspace never
/// fires events, so it needs no pattern; nor does the workspace root itself,
/// whose pattern would silence every change.
pub fn target_ignore_pattern(workspace_root: &str, target_dir: &str) -> (r: Option<String>)
    ensures
        opt_view(r) == spec_pattern_for(path_relative_to(target_dir@, workspace_root@)),
        target_dir@ == workspace_root@ ==> r is None,
{
    let relative = relative_path(target_dir, workspace_root);
    match relative {
        Some(rel) => pattern_for_relative(Some(rel.as_str())),
        None => pattern_for_relative(None),
    }
}

/// The ignore patterns added on top of the workspace's `.gitignore`: cargo's
/// default output directory, the version-control directories, the target
/// directory when it lies inside the workspace, then the user's own.
pub open spec fn spec_ignore_patterns(
    workspace_root: Seq<char>,
    target_dir: Seq<char>,
    extra_ignore: Seq<Seq<char>>,
) -> Seq<Seq<char>> {
    let fixed = seq!["target/"@, ".jj/"@, ".git/"@];
    let target = match spec_pattern_for(path_relative_to(target_dir, workspace_root)) {
        Some(p) => seq![p],
        None => Seq::empty(),
    };
    fixed + target + extra_ignore
}

/// The ignore patterns added on top of the workspace's `.gitignore`.
pub fn ignore_patterns(workspace_root: &str, target_dir: &str, extra_ignore: &Vec<String>) -> (r:
    Vec<String>)
    ensures
        views(r@) == spec_ignore_patterns(workspace_root@, target_dir@, views(extra_ignore@)),
{
    let mut out: Vec<String> = Vec::new();
    out.push(String::from_str("target/"));
    out.push(String::from_str(".jj/"));
    out.push(String::from_str(".git/"));
    match target_ignore_pattern(workspace_root, target_dir) {
        Some(p) => out.push(p),
        None => {},
    }
    let ghost head = views(out@);
    let mut i: usize = 0;
    while i < extra_ignore.len()
        invariant
            0 <= i <= extra_ignore.len(),
            views(out@) == head + views(extra_ignore@).take(i as int),
        decreases extra_ignore.len() - i,
    {
        let ghost o = out@;
        out.push(extra_ignore[i].clone());
        proof {
            assert(views(out@) =~= views(o).push(extra_ignore@[i as int]@));
            assert(views(extra_ignore@).take(i + 1) =~= views(extra_ignore@).take(i as int).push(
                extra_ignore@[i as int]@,
            ));
        }
        i = i + 1;
    }
    assert(views(extra_ignore@).take(extra_ignore.len() as int) =~= views(extra_ignore@));
    out
}

#[verifier::external_type_specification]
#[verifier::external_body]
pub struct ExGitignore(ignore::gitignore::Gitignore);

#[verifier::external_type_specification]
#[verifier::external_body]
pub struct ExGitignoreBuilder(ignore::gitignore::GitignoreBuilder);

/// The globs a gitignore builder holds, in the order they were added: for
/// each, the line it was made from (as the builder keeps it) and whether it
/// was compiled case-insensitively and with unclosed classes allowed.
pub uninterp spec fn builder_globs(b: ignore::gitignore::GitignoreBuilder) -> Seq<
    (Seq<char>, bool, bool),
>;

/// What a gitignore builder was set up with: its root, and whether globs
/// added now are compiled case-insensitively and with unclosed classes
/// allowed.
pub uninterp spec fn builder_setup(b: ignore::gitignore::GitignoreBuilder) -> (Seq<char>, bool, bool);

/// The globs a gitignore matcher holds, as `builder_globs` describes them.
pub uninterp spec fn matcher_globs(m: ignore::gitignore::Gitignore) -> Seq<(Seq<char>, bool, bool)>;

/// The directory a gitignore matcher matches paths relative to.
pub uninterp spec fn matcher_root(m: ignore::gitignore::Gitignore) -> Seq<char>;

/// Whether the `ignore` crate compiles the gitignore line `line` into a glob
/// under the given case-insensitivity and unclosed-class settings.
pub uninterp spec fn glob_line_accepted(line: Seq<char>, case_insensitive: bool, allow_unclosed_class: bool) -> bool;

/// Whether the path `path` (a directory when `is_dir`), or one of its
/// parents, is ignored by the globs `globs` rooted at `root`.
pub uninterp spec fn gitignore_ignores(
    root: Seq<char>,
    globs: Seq<(Seq<char>, bool, bool)>,
    path: Seq<char>,
    is_dir: bool,
) -> bool;

/// `root` without one leading `./`, as a gitignore builder keeps its root.
pub open spec fn strip_dot_slash(root: Seq<char>) -> Seq<char> {
    if root.len() >= 2 && root[0] == '.' && root[1] == '/' {
        root.skip(2)
    } else {
        root
    }
}

/// `char::is_whitespace`: the Unicode `White_Space` characters.
pub open spec fn is_white_space(c: char) -> bool {
    let n = c as u32;
    (9 <= n <= 13) || n == 32 || n == 0x85 || n == 0xa0 || n == 0x1680 || (0x2000 <= n <= 0x200a)
        || n == 0x2028 || n == 0x2029 || n == 0x202f || n == 0x205f || n == 0x3000
}

/// `s` without trailing white space.
pub open spec fn trim_end(s: Seq<char>) -> Seq<char>
    decreases s.len(),
{
    if s.len() > 0 && is_white_space(s.last()) {
        trim_end(s.drop_last())
    } else {
        s
    }
}

/// The text a gitignore line keeps as its glob: the line without trailing
/// white space, unless it ends in an escaped space.
pub open spec fn glob_text(line: Seq<char>) -> Seq<char> {
    if line.len() >= 2 && line[line.len() - 2] == '\\' && line[line.len() - 1] == ' ' {
        line
    } else {
        trim_end(line)
    }
}

/// A comment or a blank line, which adds no glob.
pub open spec fn adds_nothing(line: Seq<char>) -> bool {
    (line.len() > 0 && line[0] == '#') || glob_text(line).len() == 0
}

/// The glob a gitignore line adds under the given settings: none for a
/// comment, a blank line, or a line that does not compile.
pub open spec fn added_glob(line: Seq<char>, case_insensitive: bool, allow_unclosed_class: bool) -> Option<
    (Seq<char>, bool, bool),
> {
    if adds_nothing(line) {
        None
    } else if glob_line_accepted(glob_text(line), case_insensitive, allow_unclosed_class) {
        Some((glob_text(line), case_insensitive, allow_unclosed_class))
    } else {
        None
    }
}

/// The globs that adding `lines` in order to a builder with the default
/// settings (case-sensitive, unclosed classes allowed) adds.
pub open spec fn added_globs(lines: Seq<Seq<char>>) -> Seq<(Seq<char>, bool, bool)>
    decreases lines.len(),
{
    if lines.len() == 0 {
        Seq::empty()
    } else {
        match added_glob(lines.last(), false, true) {
            Some(g) => added_globs(lines.drop_last()).push(g),
            None => added_globs(lines.drop_last()),
        }
    }
}

/// `GitignoreBuilder::new(root)`: a builder with no globs, rooted at `root`
/// (without a leading `./`), case-sensitive and allowing unclosed classes.
#[verifier::external_body]
fn new_ignore_builder(root: &str) -> (r: ignore::gitignore::GitignoreBuilder)
    ensures
        builder_globs(r) == Seq::<(Seq<char>, bool, bool)>::empty(),
        builder_setup(r) == (strip_dot_slash(root@), false, true),
{
    ignore::gitignore::GitignoreBuilder::new(root)
}

/// `Path::exists`: whether something is on disk at `path`. Nothing is
/// claimed of the answer.
#[verifier::external_body]
fn path_exists(path: &str) -> bool {
    std::path::Path::new(path).exists()
}

/// `GitignoreBuilder::add`: reads the gitignore file at `path` into the
/// builder, line by line; unreadable files and bad lines are skipped. The
/// claim is that the setup is unchanged, the earlier globs stay first, and
/// the globs added carry the builder's settings. Which globs the file holds
/// is not stated.
#[verifier::external_body]
fn add_ignore_file(builder: &mut ignore::gitignore::GitignoreBuilder, path: &str)
    ensures
        builder_setup(*final(builder)) == builder_setup(*old(builder)),
        builder_globs(*final(builder)).len() >= builder_globs(*old(builder)).len(),
        builder_globs(*final(builder)).take(builder_globs(*old(builder)).len() as int)
            == builder_globs(*old(builder)),
        forall|i: int|
            builder_globs(*old(builder)).len() <= i < builder_globs(*final(builder)).len() ==> (
            #[trigger] builder_globs(*final(builder))[i]).1 == builder_setup(*old(builder)).1
                && builder_globs(*final(builder))[i].2 == builder_setup(*old(builder)).2,
{
    let _ = builder.add(path);
}

/// `GitignoreBuilder::add_line`: adds the glob of one line, under the
/// builder's settings, as `added_glob` describes; the setup is unchanged.
/// Which lines compile is named, not stated.
#[verifier::external_body]
fn add_ignore_line(builder: &mut ignore::gitignore::GitignoreBuilder, line: &str)
    ensures
        builder_setup(*final(builder)) == builder_setup(*old(builder)),
        builder_globs(*final(builder)) == if adds_nothing(line@) {
            builder_globs(*old(builder))
        } else if glob_line_accepted(
            glob_text(line@),
            builder_setup(*old(builder)).1,
            builder_setup(*old(builder)).2,
        ) {
            builder_globs(*old(builder)).push(
                (glob_text(line@), builder_setup(*old(builder)).1, builder_setup(*old(builder)).2),
            )
        } else {
            builder_globs(*old(builder))
        },
{
    let _ = builder.add_line(None, line);
}

/// Whether a glob set made of `globs` (each a gitignore line as the builder
/// keeps it, with its case-insensitivity and unclosed-class settings)
/// compiles.
pub uninterp spec fn globs_compile(globs: Seq<(Seq<char>, bool, bool)>) -> bool;

/// `GitignoreBuilder::build`: the matcher of the builder's globs, or the
/// error's message. It succeeds exactly when the glob set of the builder's
/// globs compiles, which a builder without globs always does; a matcher
/// with globs keeps the builder's root. Which glob sets compile is named,
/// not stated.
#[verifier::external_body]
fn build_ignore_matcher(builder: &ignore::gitignore::GitignoreBuilder) -> (r: Result<
    ignore::gitignore::Gitignore,
    String,
>)
    ensures
        (r is Ok) == globs_compile(builder_globs(*builder)),
        builder_globs(*builder).len() == 0 ==> r is Ok,
        r matches Ok(m) ==> matcher_globs(m) == builder_globs(*builder),
        r matches Ok(m) ==> builder_globs(*builder).len() > 0 ==> matcher_root(m) == builder_setup(
            *builder,
        ).0,
{
    builder.build().map_err(|e| e.to_string())
}

/// `Gitignore::empty`: a matcher without globs.
#[verifier::external_body]
fn empty_ignore_matcher() -> (r: ignore::gitignore::Gitignore)
    ensures
        matcher_globs(r).len() == 0,
{
    ignore::gitignore::Gitignore::empty()
}

/// A path the matcher can be asked about: relative, with no empty
/// component that its root-stripping could turn into a leading slash.
pub open spec fn matchable(relative: Seq<char>) -> bool {
    !(relative.len() > 0 && relative[0] == '/') && !has_double_slash(relative)
}

/// `Gitignore::matched_path_or_any_parents(relative, is_dir).is_ignore()`:
/// whether the path or one of its parents is ignored, named over the
/// matcher's root and globs; a matcher without globs ignores nothing. That
/// method panics on a path it cannot make relative to its root; a relative
/// path with no empty component is never such a path.
#[verifier::external_body]
fn ignore_matches(matcher: &ignore::gitignore::Gitignore, relative: &str, is_dir: bool) -> (r: bool)
    requires
        matchable(relative@),
    ensures
        r == gitignore_ignores(matcher_root(*matcher), matcher_globs(*matcher), relative@, is_dir),
        matcher_globs(*matcher).len() == 0 ==> !r,
{
    matcher.matched_path_or_any_parents(relative, is_dir).is_ignore()
}

/// The ignore rules a workspace gets: the globs `gs` of whatever its
/// `.gitignore` holds, then those of `ignore_patterns`, all with the default
/// settings and rooted at the workspace root. They build exactly when `gs`
/// compiles; otherwise the matcher has no globs and the error's message
/// comes with it.
pub open spec fn ignore_rules_built(
    workspace_root: Seq<char>,
    patterns: Seq<Seq<char>>,
    matcher: ignore::gitignore::Gitignore,
    problem: Option<String>,
) -> bool {
    let added = added_globs(patterns);
    exists|gs: Seq<(Seq<char>, bool, bool)>|
        #![trigger globs_compile(gs)]
        {
            &&& gs.len() >= added.len()
            &&& gs.skip(gs.len() - added.len()) == added
            &&& forall|i: int| 0 <= i < gs.len() - added.len() ==> !(#[trigger] gs[i]).1 && gs[i].2
            &&& (problem is None) == globs_compile(gs)
            &&& match problem {
                Some(_) => matcher_globs(matcher).len() == 0,
                None => {
                    &&& matcher_globs(matcher) == gs
                    &&& gs.len() > 0 ==> matcher_root(matcher) == strip_dot_slash(workspace_root)
                },
            }
        }
}

/// Builds the ignore rules of a workspace: its `.gitignore`, when there is
/// one, then `ignore_patterns`. When the patterns do not build, a matcher
/// that ignores nothing is returned with the error's message.
pub fn ignore_rules(workspace_root: &str, target_dir: &str, extra_ignore: &Vec<String>) -> (r: (
    ignore::gitignore::Gitignore,
    Option<String>,
))
    ensures
        ignore_rules_built(
            workspace_root@,
            spec_ignore_patterns(workspace_root@, target_dir@, views(extra_ignore@)),
            r.0,
            r.1,
        ),
{
    let mut builder = new_ignore_builder(workspace_root);
    let gitignore_path = push_path(workspace_root, ".gitignore");
    if path_exists(gitignore_path.as_str()) {
        add_ignore_file(&mut builder, gitignore_path.as_str());
    }
    let ghost file_globs = builder_globs(builder);
    assert(forall|i: int| 0 <= i < file_globs.len() ==> !(#[trigger] file_globs[i]).1 && file_globs[i].2);
    let patterns = ignore_patterns(workspace_root, target_dir, extra_ignore);
    let ghost lines = views(patterns@);
    let mut i: usize = 0;
    assert(lines.take(0) =~= Seq::<Seq<char>>::empty());
    assert(file_globs + added_globs(lines.take(0)) =~= file_globs);
    while i < patterns.len()
        invariant
            0 <= i <= patterns.len(),
            lines == views(patterns@),
            builder_setup(builder) == (strip_dot_slash(workspace_root@), false, true),
            forall|k: int| 0 <= k < file_globs.len() ==> !(#[trigger] file_globs[k]).1 && file_globs[k].2,
            builder_globs(builder) == file_globs + added_globs(lines.take(i as int)),
        decreases patterns.len() - i,
    {
        add_ignore_line(&mut builder, patterns[i].as_str());
        proof {
            assert(lines.take(i + 1).drop_last() =~= lines.take(i as int));
            assert(lines.take(i + 1).last() == patterns@[i as int]@);
            match added_glob(lines[i as int], false, true) {
                Some(g) => {
                    assert(file_globs + added_globs(lines.take(i + 1)) =~= (file_globs
                        + added_globs(lines.take(i as int))).push(g));
                },
                None => {},
            }
        }
        i = i + 1;
    }
    assert(lines.take(patterns.len() as int) =~= lines);
    let ghost globs = builder_globs(builder);
    let ghost added = added_globs(lines);
    assert(globs.skip(globs.len() - added.len()) =~= added);
    let built = build_ignore_matcher(&builder);
    let r = match built {
        Ok(matcher) => (matcher, None),
        Err(message) => (empty_ignore_matcher(), Some(message)),
    };
    assert(globs_compile(globs) == (r.1 is None));
    r
}

/// The path the matcher is asked about: the path relative to the workspace
/// root when it lies inside it, the path itself otherwise.
pub open spec fn match_candidate(workspace_root: Seq<char>, path: Seq<char>) -> Seq<char> {
    match path_relative_to(path, workspace_root) {
        Some(rel) => rel,
        None => path,
    }
}

fn is_matchable(text: &str) -> (r: bool)
    ensures
        r == matchable(text@),
{
    let n: usize = text.unicode_len();
    if n > 0 && text.get_char(0) == '/' {
        return false;
    }
    let mut i: usize = 0;
    while i < n && i + 1 < n
        invariant
            i <= n,
            n == text@.len(),
            forall|j: int| 0 <= j < i && j + 1 < n ==> !(#[trigger] text@[j] == '/' && text@[j + 1] == '/'),
        decreases n - i,
    {
        if text.get_char(i) == '/' && text.get_char(i + 1) == '/' {
            return false;
        }
        i = i + 1;
    }
    true
}

/// Whether the ignore rules ignore `path`: the matcher's answer for its
/// candidate (the path relative to the workspace root, or the path itself),
/// when the matcher can be asked about it at all.
pub open spec fn spec_path_ignored(
    matcher: ignore::gitignore::Gitignore,
    workspace_root: Seq<char>,
    path: Seq<char>,
    is_dir: bool,
) -> bool {
    let candidate = match_candidate(workspace_root, path);
    matchable(candidate) && gitignore_ignores(
        matcher_root(matcher),
        matcher_globs(matcher),
        candidate,
        is_dir,
    )
}

/// Whether `path` matches the ignore rules: the matcher's answer for the
/// path relative to the workspace root. A path the matcher cannot be asked
/// about, one outside the workspace among them, is never ignored.
pub fn path_ignored(
    matcher: &ignore::gitignore::Gitignore,
    workspace_root: &str,
    path: &str,
    is_dir: bool,
) -> (r: bool)
    ensures
        r == spec_path_ignored(*matcher, workspace_root@, path@, is_dir),
{
    let candidate = match relative_path(path, workspace_root) {
        Some(rel) => rel,
        None => path.to_string(),
    };
    if is_matchable(candidate.as_str()) {
        ignore_matches(matcher, candidate.as_str(), is_dir)
    } else {
        false
    }
}

/// An event calls for a rebuild when it creates, modifies or removes
/// something and at least one of its paths is not ignored.
pub open spec fn spec_event_calls_for_rebuild(
    matcher: ignore::gitignore::Gitignore,
    workspace_root: Seq<char>,
    kind: ChangeKind,
    paths: Seq<Seq<char>>,
    is_dir: Seq<bool>,
) -> bool {
    kind != ChangeKind::Other && exists|i: int|
        0 <= i < paths.len() && !spec_path_ignored(matcher, workspace_root, #[trigger] paths[i], is_dir[i])
}

/// Whether a file-system event calls for a rebuild: it creates, modifies or
/// removes something, and one of its paths (`is_dir[i]` telling whether
/// `paths[i]` is a directory) is not ignored. An event whose paths are all
/// ignored never does; a path the rules cannot apply to, such as one under an
/// extra watched directory outside the workspace, always counts.
pub fn event_calls_for_rebuild(
    matcher: &ignore::gitignore::Gitignore,
    workspace_root: &str,
    kind: ChangeKind,
    paths: &Vec<String>,
    is_dir: &Vec<bool>,
) -> (r: bool)
    requires
        paths@.len() == is_dir@.len(),
    ensures
        r == spec_event_calls_for_rebuild(*matcher, workspace_root@, kind, views(paths@), is_dir@),
        (forall|i: int|
            0 <= i < paths@.len() ==> spec_path_ignored(
                *matcher,
                workspace_root@,
                #[trigger] paths@[i]@,
                is_dir@[i],
            )) ==> !r,
{
    let mut ignored: Vec<bool> = Vec::new();
    let mut i: usize = 0;
    while i < paths.len()
        invariant
            0 <= i <= paths.len(),
            paths@.len() == is_dir@.len(),
            ignored@.len() == i,
            forall|j: int|
                0 <= j < i ==> ignored@[j] == spec_path_ignored(
                    *matcher,
                    workspace_root@,
                    #[trigger] paths@[j]@,
                    is_dir@[j],
                ),
        decreases paths.len() - i,
    {
        let flag = path_ignored(matcher, workspace_root, paths[i].as_str(), is_dir[i]);
        ignored.push(flag);
        i = i + 1;
    }
    let r = should_rebuild(kind, &ignored);
    proof {
        let ps = views(paths@);
        assert(ps.len() == paths@.len());
        assert forall|j: int| 0 <= j < ps.len() implies #[trigger] ps[j] == paths@[j]@ by {}
        if r {
            let k: int = choose|k: int| 0 <= k < ignored@.len() && !ignored@[k];
            assert(!spec_path_ignored(*matcher, workspace_root@, ps[k], is_dir@[k]));
        }
        if spec_event_calls_for_rebuild(*matcher, workspace_root@, kind, ps, is_dir@) {
            let k: int = choose|k: int|
                0 <= k < ps.len() && !spec_path_ignored(*matcher, workspace_root@, #[trigger] ps[k], is_dir@[k]);
            assert(paths@[k]@ == ps[k]);
            assert(!ignored@[k]);
        }
    }
    r
}

/// The kind of a file-system event.
#[derive(Debug, Clone, Copy, PartialEq, Eq, Structural)]
pub enum ChangeKind {
    Create,
    Modify,
    Remove,
    /// Access and other events that change nothing.
    Other,
}

/// An event calls for a rebuild when it creates, modifies or removes
/// something, and at least one of its paths is not ignored.
pub open spec fn spec_should_rebuild(kind: ChangeKind, ignored: Seq<bool>) -> bool {
    kind != ChangeKind::Other && exists|i: int| 0 <= i < ignored.len() && !ignored[i]
}

/// Creating, modifying and removing all count alike: such an event calls
/// for a rebuild exactly when one of its paths is not ignored, and an event
/// of any other kind never does. The same holds of whole events, over the
/// ignore rules' answer for each path.
pub proof fn changes_rebuild_unless_all_ignored(
    kind: ChangeKind,
    ignored: Seq<bool>,
    matcher: ignore::gitignore::Gitignore,
    workspace_root: Seq<char>,
    paths: Seq<Seq<char>>,
    is_dir: Seq<bool>,
)
    requires
        paths.len() == is_dir.len(),
    ensures
        (kind == ChangeKind::Create || kind == ChangeKind::Modify || kind == ChangeKind::Remove) ==> (
        spec_should_rebuild(kind, ignored) <==> exists|i: int| 0 <= i < ignored.len() && !ignored[i]),
        kind == ChangeKind::Other ==> !spec_should_rebuild(kind, ignored),
        (kind == ChangeKind::Create || kind == ChangeKind::Modify || kind == ChangeKind::Remove) ==> (
        spec_event_calls_for_rebuild(matcher, workspace_root, kind, paths, is_dir) <==> exists|i: int|
            0 <= i < paths.len() && !spec_path_ignored(matcher, workspace_root, #[trigger] paths[i], is_dir[i])),
        kind == ChangeKind::Other ==> !spec_event_calls_for_rebuild(matcher, workspace_root, kind, paths, is_dir),
{
}

/// Whether a file-system event calls for a rebuild; `ignored[i]` tells
/// whether the event's `i`-th path matches the ignore rules.
pub fn should_rebuild(kind: ChangeKind, ignored: &Vec<bool>) -> (r: bool)
    ensures
        r == spec_should_rebuild(kind, ignored@),
{
    if kind == ChangeKind::Other {
        return false;
    }
    let mut i: usize = 0;
    while i < ignored.len()
        invariant
            0 <= i <= ignored.len(),
            kind != ChangeKind::Other,
            forall|j: int| 0 <= j < i ==> ignored@[j],
        decreases ignored.len() - i,
    {
        if !ignored[i] {
            return true;
        }
        i = i + 1;
    }
    false
}

/// Where the debouncer stands: waiting for a first change, waiting for the
/// changes to settle, or finished because its input closed.
#[derive(Debug, Clone, Copy, PartialEq, Eq, Structural)]
pub enum Debounce {
    Idle,
    Settling,
    Closed,
}

#[derive(Debug, Clone, Copy, PartialEq, Eq, Structural)]
pub enum DebounceEvent {
    /// A change that calls for a rebuild.
    Change,
    /// The debounce delay passed without a further change.
    QuietPeriodElapsed,
    /// No further changes can arrive.
    InputClosed,
}

#[derive(Debug, Clone, Copy, PartialEq, Eq, Structural)]
pub enum DebounceAction {
    /// Start waiting for the debounce delay.
    StartTimer,
    /// A further change arrived: wait the whole delay again.
    RestartTimer,
    /// Send one change notification.
    Notify,
    /// End the debouncer.
    Stop,
    Nothing,
}

pub open spec fn spec_debounce(d: Debounce, e: DebounceEvent) -> (Debounce, DebounceAction) {
    match (d, e) {
        (Debounce::Closed, _) => (Debounce::Closed, DebounceAction::Nothing),
        (_, DebounceEvent::InputClosed) => (Debounce::Closed, DebounceAction::Stop),
        (Debounce::Idle, DebounceEvent::Change) => (Debounce::Settling, DebounceAction::StartTimer),
        (Debounce::Settling, DebounceEvent::Change) => (
            Debounce::Settling,
            DebounceAction::RestartTimer,
        ),
        (Debounce::Settling, DebounceEvent::QuietPeriodElapsed) => (
            Debounce::Idle,
            DebounceAction::Notify,
        ),
        (Debounce::Idle, DebounceEvent::QuietPeriodElapsed) => (
            Debounce::Idle,
            DebounceAction::Nothing,
        ),
    }
}

impl Debounce {
    /// Advances the debouncer by one event: a change starts (or restarts) the
    /// quiet-period timer, and a quiet period after changes sends one
    /// notification.
    pub fn step(self, event: DebounceEvent) -> (r: (Debounce, DebounceAction))
        ensures
            r == spec_debounce(self, event),
    {
        match (self, event) {
            (Debounce::Closed, _) => (Debounce::Closed, DebounceAction::Nothing),
            (_, DebounceEvent::InputClosed) => (Debounce::Closed, DebounceAction::Stop),
            (Debounce::Idle, DebounceEvent::Change) => (
                Debounce::Settling,
                DebounceAction::StartTimer,
            ),
            (Debounce::Settling, DebounceEvent::Change) => (
                Debounce::Settling,
                DebounceAction::RestartTimer,
            ),
            (Debounce::Settling, DebounceEvent::QuietPeriodElapsed) => (
                Debounce::Idle,
                DebounceAction::Notify,
            ),
            (Debounce::Idle, DebounceEvent::QuietPeriodElapsed) => (
                Debounce::Idle,
                DebounceAction::Nothing,
            ),
        }
    }
}

/// The state and the actions after feeding `events` in order.
pub open spec fn debounce_run(d: Debounce, events: Seq<DebounceEvent>) -> (Debounce, Seq<
    DebounceAction,
>)
    decreases events.len(),
{
    if events.len() == 0 {
        (d, Seq::empty())
    } else {
        let (next, action) = spec_debounce(d, events[0]);
        let (last, rest) = debounce_run(next, events.drop_first());
        (last, seq![action] + rest)
    }
}

/// How many notifications `actions` sends.
pub open spec fn notifications(actions: Seq<DebounceAction>) -> nat
    decreases actions.len(),
{
    if actions.len() == 0 {
        0
    } else {
        (if actions[0] == DebounceAction::Notify {
            1nat
        } else {
            0nat
        }) + notifications(actions.drop_first())
    }
}

proof fn changes_settle(d: Debounce, n: nat)
    requires
        d != Debounce::Closed,
        n >= 1,
    ensures
        debounce_run(d, Seq::new(n, |i: int| DebounceEvent::Change)).0 == Debounce::Settling,
        notifications(debounce_run(d, Seq::new(n, |i: int| DebounceEvent::Change)).1) == 0,
    decreases n,
{
    let events = Seq::new(n, |i: int| DebounceEvent::Change);
    let (next, action) = spec_debounce(d, DebounceEvent::Change);
    assert(events[0] == DebounceEvent::Change);
    assert(action != DebounceAction::Notify);
    if n > 1 {
        assert(events.drop_first() =~= Seq::new((n - 1) as nat, |i: int| DebounceEvent::Change));
        changes_settle(next, (n - 1) as nat);
    } else {
        assert(events.drop_first() =~= Seq::<DebounceEvent>::empty());
    }
    let rest = debounce_run(next, events.drop_first()).1;
    assert(debounce_run(d, events).1 == seq![action] + rest);
    assert((seq![action] + rest).drop_first() =~= rest);
    assert((seq![action] + rest)[0] == action);
    if n == 1 {
        assert(rest =~= Seq::<DebounceAction>::empty());
        assert(notifications(rest) == 0);
    }
    assert(notifications(seq![action] + rest) == notifications(rest));
}

proof fn notifications_append(a: Seq<DebounceAction>, b: Seq<DebounceAction>)
    ensures
        notifications(a + b) == notifications(a) + notifications(b),
    decreases a.len(),
{
    if a.len() > 0 {
        assert((a + b).drop_first() =~= a.drop_first() + b);
        notifications_append(a.drop_first(), b);
    } else {
        assert(a + b =~= b);
    }
}

proof fn debounce_run_append(d: Debounce, a: Seq<DebounceEvent>, b: Seq<DebounceEvent>)
    ensures
        debounce_run(d, a + b).0 == debounce_run(debounce_run(d, a).0, b).0,
        debounce_run(d, a + b).1 == debounce_run(d, a).1 + debounce_run(debounce_run(d, a).0, b).1,
    decreases a.len(),
{
    if a.len() == 0 {
        assert(a + b =~= b);
        assert(debounce_run(d, a).1 + debounce_run(d, b).1 =~= debounce_run(d, b).1);
    } else {
        let next = spec_debounce(d, a[0]).0;
        assert((a + b).drop_first() =~= a.drop_first() + b);
        debounce_run_append(next, a.drop_first(), b);
        let action = spec_debounce(d, a[0]).1;
        assert(seq![action] + (debounce_run(next, a.drop_first()).1 + debounce_run(
            debounce_run(next, a.drop_first()).0,
            b,
        ).1) =~= (seq![action] + debounce_run(next, a.drop_first()).1) + debounce_run(
            debounce_run(next, a.drop_first()).0,
            b,
        ).1);
    }
}

/// A burst of changes followed by a quiet period sends exactly one
/// notification, however many changes the burst held, and leaves the
/// debouncer ready for the next burst.
pub proof fn burst_notifies_once(n: nat)
    requires
        n >= 1,
    ensures
        ({
            let events = Seq::new(n, |i: int| DebounceEvent::Change).push(
                DebounceEvent::QuietPeriodElapsed,
            );
            &&& notifications(debounce_run(Debounce::Idle, events).1) == 1
            &&& debounce_run(Debounce::Idle, events).0 == Debounce::Idle
        }),
{
    let changes = Seq::new(n, |i: int| DebounceEvent::Change);
    let tail = seq![DebounceEvent::QuietPeriodElapsed];
    assert(changes.push(DebounceEvent::QuietPeriodElapsed) =~= changes + tail);
    changes_settle(Debounce::Idle, n);
    debounce_run_append(Debounce::Idle, changes, tail);
    let mid = debounce_run(Debounce::Idle, changes).0;
    assert(tail.drop_first() =~= Seq::<DebounceEvent>::empty());
    assert(tail[0] == DebounceEvent::QuietPeriodElapsed);
    assert(debounce_run(Debounce::Idle, Seq::<DebounceEvent>::empty()).1 =~= Seq::<DebounceAction>::empty());
    assert(debounce_run(mid, tail).0 == Debounce::Idle);
    assert(debounce_run(mid, tail).1 =~= seq![DebounceAction::Notify]);
    assert(notifications(seq![DebounceAction::Notify]) == 1) by {
        assert(seq![DebounceAction::Notify].drop_first() =~= Seq::<DebounceAction>::empty());
        assert(notifications(Seq::<DebounceAction>::empty()) == 0);
    }
    notifications_append(debounce_run(Debounce::Idle, changes).1, debounce_run(mid, tail).1);
}

/// A notification is sent only when the delay passes after changes; a
/// change itself never notifies.
pub proof fn notify_only_after_quiet(d: Debounce, e: DebounceEvent)
    ensures
        spec_debounce(d, e).1 == DebounceAction::Notify <==> (d == Debounce::Settling && e
            == DebounceEvent::QuietPeriodElapsed),
{
}

} // verus!
