//! Command-line options and the cargo flags forwarded from them.
use vstd::prelude::*;
use vstd::string::*;

use crate::text::{
    drop_empty, join, join_strs, lemma_split_on_nonempty, opt_view, split_on, str_eq, str_views,
    views,
};

verus! {

/// Options of the `serve` command.
pub struct ServeArgs {
    /// The `cargo run`-style options selecting what to build and how.
    pub cargo: CargoArgs,
    /// Debounce delay in milliseconds.
    pub debounce_ms: u64,
    /// Additional paths to watch.
    pub extra_watch: Vec<String>,
    /// Additional paths to ignore.
    pub extra_ignore: Vec<String>,
    /// Skip `cargo check`, go straight to build.
    pub no_check: bool,
    /// Hide server stdout/stderr output.
    pub no_server_logs: bool,
    /// Hide build/check output.
    pub no_build_logs: bool,
    /// Start from a previously-built binary instead of waiting for the
    /// initial build to succeed.
    pub eager_start: bool,
    /// Arguments passed to the server binary.
    pub server_args: Vec<String>,
}

/// The subset of `cargo run` flags that select what to build and how,
/// forwarded verbatim to `cargo check` / `cargo build`. Paths are held as
/// strings.
pub struct CargoArgs {
    pub package: Option<String>,
    pub bin: Option<String>,
    pub example: Option<String>,
    pub features: Vec<String>,
    pub all_features: bool,
    pub no_default_features: bool,
    pub jobs: Option<String>,
    pub keep_going: bool,
    pub release: bool,
    pub profile: Option<String>,
    pub target: Option<String>,
    pub target_dir: Option<String>,
    pub timings: Option<String>,
    pub manifest_path: Option<String>,
    pub lockfile_path: Option<String>,
    pub ignore_rust_version: bool,
    pub locked: bool,
    pub offline: bool,
    pub frozen: bool,
    pub verbose: u8,
    pub quiet: bool,
    pub color: Option<String>,
    pub config: Vec<String>,
    pub unstable: Vec<String>,
}

impl Default for CargoArgs {
    fn default() -> (r: Self)
        ensures
            r.is_empty(),
    {
        CargoArgs {
            package: None,
            bin: None,
            example: None,
            features: Vec::new(),
            all_features: false,
            no_default_features: false,
            jobs: None,
            keep_going: false,
            release: false,
            profile: None,
            target: None,
            target_dir: None,
            timings: None,
            manifest_path: None,
            lockfile_path: None,
            ignore_rust_version: false,
            locked: false,
            offline: false,
            frozen: false,
            verbose: 0,
            quiet: false,
            color: None,
            config: Vec::new(),
            unstable: Vec::new(),
        }
    }
}

impl Default for ServeArgs {
    fn default() -> (r: Self)
        ensures
            r.cargo.is_empty(),
            r.debounce_ms == 0,
            r.extra_watch@.len() == 0,
            r.extra_ignore@.len() == 0,
            !r.no_check,
            !r.no_server_logs,
            !r.no_build_logs,
            !r.eager_start,
            r.server_args@.len() == 0,
    {
        ServeArgs {
            cargo: CargoArgs::default(),
            debounce_ms: 0,
            extra_watch: Vec::new(),
            extra_ignore: Vec::new(),
            no_check: false,
            no_server_logs: false,
            no_build_logs: false,
            eager_start: false,
            server_args: Vec::new(),
        }
    }
}

pub open spec fn is_feature_separator(c: char) -> bool {
    c == ',' || c == ' '
}

/// The non-empty feature names in one `--features` value, split on commas
/// and spaces.
pub open spec fn feature_tokens(s: Seq<char>) -> Seq<Seq<char>> {
    drop_empty(feature_fields(s))
}

/// The fields of one `--features` value between commas and spaces, empty
/// ones included.
pub open spec fn feature_fields(s: Seq<char>) -> Seq<Seq<char>> {
    split_on(s, |c: char| is_feature_separator(c))
}

/// The feature names of all `--features` values, in order.
pub open spec fn features_of(values: Seq<Seq<char>>) -> Seq<Seq<char>>
    decreases values.len(),
{
    if values.len() == 0 {
        Seq::empty()
    } else {
        features_of(values.drop_last()) + feature_tokens(values.last())
    }
}

/// `name` when `on`, nothing otherwise.
pub open spec fn toggle_flag(name: Seq<char>, on: bool) -> Seq<Seq<char>> {
    if on {
        seq![name]
    } else {
        Seq::empty()
    }
}

/// `name value` when a value is present, nothing otherwise.
pub open spec fn opt_flag(name: Seq<char>, value: Option<String>) -> Seq<Seq<char>> {
    match value {
        Some(v) => seq![name, v@],
        None => Seq::empty(),
    }
}

/// `name value` once per value, in order.
pub open spec fn repeated_flag(name: Seq<char>, values: Seq<Seq<char>>) -> Seq<Seq<char>>
    decreases values.len(),
{
    if values.len() == 0 {
        Seq::empty()
    } else {
        repeated_flag(name, values.drop_last()) + seq![name, values.last()]
    }
}

/// `name` repeated `n` times.
pub open spec fn counted_flag(name: Seq<char>, n: nat) -> Seq<Seq<char>>
    decreases n,
{
    if n == 0 {
        Seq::empty()
    } else {
        counted_flag(name, (n - 1) as nat).push(name)
    }
}

/// The target subdirectory cargo uses for a profile selection.
pub open spec fn spec_profile_dir(profile: Option<Seq<char>>, release: bool) -> Seq<char> {
    match profile {
        Some(p) => if p == "dev"@ || p == "test"@ {
            "debug"@
        } else if p == "bench"@ {
            "release"@
        } else {
            p
        },
        None => if release {
            "release"@
        } else {
            "debug"@
        },
    }
}

impl CargoArgs {
    /// No option is set: what a command line without cargo options parses to.
    pub open spec fn is_empty(self) -> bool {
        &&& self.package is None
        &&& self.bin is None
        &&& self.example is None
        &&& self.features@.len() == 0
        &&& !self.all_features
        &&& !self.no_default_features
        &&& self.jobs is None
        &&& !self.keep_going
        &&& !self.release
        &&& self.profile is None
        &&& self.target is None
        &&& self.target_dir is None
        &&& self.timings is None
        &&& self.manifest_path is None
        &&& self.lockfile_path is None
        &&& !self.ignore_rust_version
        &&& !self.locked
        &&& !self.offline
        &&& !self.frozen
        &&& self.verbose == 0
        &&& !self.quiet
        &&& self.color is None
        &&& self.config@.len() == 0
        &&& self.unstable@.len() == 0
    }

    pub open spec fn spec_feature_list(self) -> Seq<Seq<char>> {
        features_of(views(self.features@))
    }

    pub open spec fn spec_metadata_flags(self) -> Seq<Seq<char>> {
        opt_flag("--manifest-path"@, self.manifest_path) + opt_flag(
            "--lockfile-path"@,
            self.lockfile_path,
        ) + toggle_flag("--locked"@, self.locked) + toggle_flag("--offline"@, self.offline)
            + toggle_flag("--frozen"@, self.frozen) + repeated_flag("--config"@, views(self.config@))
            + repeated_flag("-Z"@, views(self.unstable@))
    }

    pub open spec fn spec_feature_flags(self) -> Seq<Seq<char>> {
        let features = self.spec_feature_list();
        if features.len() == 0 {
            Seq::empty()
        } else {
            seq!["--features"@, join(features, ","@)]
        }
    }

    pub open spec fn spec_timings_flag(self) -> Seq<Seq<char>> {
        match self.timings {
            Some(f) => seq!["--timings="@ + f@],
            None => Seq::empty(),
        }
    }

    pub open spec fn spec_compile_flags(self) -> Seq<Seq<char>> {
        toggle_flag("--all-features"@, self.all_features) + toggle_flag(
            "--no-default-features"@,
            self.no_default_features,
        ) + opt_flag("--jobs"@, self.jobs) + toggle_flag("--keep-going"@, self.keep_going)
            + toggle_flag("--release"@, self.release)
    }

    pub open spec fn spec_output_flags(self) -> Seq<Seq<char>> {
        opt_flag("--profile"@, self.profile) + opt_flag("--target"@, self.target) + opt_flag(
            "--target-dir"@,
            self.target_dir,
        ) + self.spec_timings_flag() + toggle_flag(
            "--ignore-rust-version"@,
            self.ignore_rust_version,
        )
    }

    /// Everything `forward_flags` passes before the manifest options.
    pub open spec fn spec_build_flags(self) -> Seq<Seq<char>> {
        self.spec_feature_flags() + self.spec_compile_flags() + self.spec_output_flags()
    }

    /// Everything `forward_flags` passes after the manifest options.
    pub open spec fn spec_display_flags(self) -> Seq<Seq<char>> {
        counted_flag("-v"@, self.verbose as nat) + toggle_flag("--quiet"@, self.quiet) + opt_flag(
            "--color"@,
            self.color,
        )
    }

    pub open spec fn spec_forward_flags(self) -> Seq<Seq<char>> {
        self.spec_build_flags() + self.spec_metadata_flags() + self.spec_display_flags()
    }

    /// The requested features, flattened across repetitions and accepting both
    /// cargo spellings: `--features a,b` and `--features "a b"`.
    pub fn feature_list(&self) -> (r: Vec<&str>)
        ensures
            str_views(r@) == self.spec_feature_list(),
    {
        let mut out: Vec<&str> = Vec::new();
        let mut k: usize = 0;
        while k < self.features.len()
            invariant
                0 <= k <= self.features.len(),
                str_views(out@) == features_of(views(self.features@).take(k as int)),
            decreases self.features.len() - k,
        {
            let ghost before = out@;
            push_feature_tokens(&mut out, self.features[k].as_str());
            proof {
                let vs = views(self.features@);
                assert(vs.take(k + 1).drop_last() =~= vs.take(k as int));
                assert(str_views(out@) =~= str_views(before) + feature_tokens(vs[k as int]));
            }
            k = k + 1;
        }
        assert(views(self.features@).take(self.features.len() as int) =~= views(self.features@));
        out
    }

    /// Flags to forward to `cargo check` / `cargo build`.
    ///
    /// Target selection (`--bin` / `--example`) is not included: the target is
    /// resolved against package metadata first, then passed explicitly.
    pub fn forward_flags(&self) -> (r: Vec<String>)
        ensures
            views(r@) == self.spec_forward_flags(),
    {
        let mut flags = Flags(Vec::new());
        self.push_build_flags(&mut flags);
        let ghost built = views(flags.0@);
        let mut metadata = self.metadata_flags();
        flags.0.append(&mut metadata);
        assert(views(flags.0@) =~= built + self.spec_metadata_flags());
        self.push_display_flags(&mut flags);
        assert(views(flags.0@) =~= self.spec_forward_flags());
        flags.0
    }

    fn push_build_flags(&self, flags: &mut Flags)
        ensures
            views(final(flags).0@) == views(old(flags).0@) + self.spec_build_flags(),
    {
        let ghost start = views(flags.0@);
        let features = self.feature_list();
        if features.len() > 0 {
            let joined = join_strs(&features, ",");
            flags.value("--features", joined.as_str());
        }
        assert(views(flags.0@) =~= start + self.spec_feature_flags());
        self.push_compile_flags(flags);
        self.push_output_flags(flags);
        assert(views(flags.0@) =~= start + self.spec_build_flags());
    }

    fn push_compile_flags(&self, flags: &mut Flags)
        ensures
            views(final(flags).0@) == views(old(flags).0@) + self.spec_compile_flags(),
    {
        let ghost start = views(flags.0@);
        flags.toggle("--all-features", self.all_features);
        flags.toggle("--no-default-features", self.no_default_features);
        flags.optional("--jobs", &self.jobs);
        flags.toggle("--keep-going", self.keep_going);
        flags.toggle("--release", self.release);
        assert(views(flags.0@) =~= start + self.spec_compile_flags());
    }

    fn push_output_flags(&self, flags: &mut Flags)
        ensures
            views(final(flags).0@) == views(old(flags).0@) + self.spec_output_flags(),
    {
        let ghost start = views(flags.0@);
        flags.optional("--profile", &self.profile);
        flags.optional("--target", &self.target);
        flags.optional("--target-dir", &self.target_dir);
        match &self.timings {
            Some(fmts) => {
                let mut flag = String::from_str("--timings=");
                flag.append(fmts.as_str());
                flags.flag(flag.as_str());
            },
            None => {},
        }
        let ghost s1 = views(flags.0@);
        assert(s1 =~= start + opt_flag("--profile"@, self.profile) + opt_flag("--target"@, self.target)
            + opt_flag("--target-dir"@, self.target_dir) + self.spec_timings_flag());
        flags.toggle("--ignore-rust-version", self.ignore_rust_version);
        assert(views(flags.0@) =~= start + self.spec_output_flags());
    }

    fn push_display_flags(&self, flags: &mut Flags)
        ensures
            views(final(flags).0@) == views(old(flags).0@) + self.spec_display_flags(),
    {
        let ghost start = views(flags.0@);
        let mut i: u8 = 0;
        assert(views(flags.0@) =~= start + counted_flag("-v"@, 0));
        while i < self.verbose
            invariant
                0 <= i <= self.verbose,
                views(flags.0@) == start + counted_flag("-v"@, i as nat),
            decreases self.verbose - i,
        {
            flags.flag("-v");
            assert(views(flags.0@) =~= start + counted_flag("-v"@, (i + 1) as nat));
            i = i + 1;
        }
        flags.toggle("--quiet", self.quiet);
        flags.optional("--color", &self.color);
        assert(views(flags.0@) =~= start + self.spec_display_flags());
    }

    /// Flags that describe where the manifest lives and how cargo may touch
    /// the network or lockfile. Passed to `cargo metadata` as well as the build
    /// commands, so both resolve the same workspace the same way. Kept to
    /// options `cargo metadata` accepts.
    pub fn metadata_flags(&self) -> (r: Vec<String>)
        ensures
            views(r@) == self.spec_metadata_flags(),
    {
        let mut flags = Flags(Vec::new());
        flags.optional("--manifest-path", &self.manifest_path);
        flags.optional("--lockfile-path", &self.lockfile_path);
        flags.toggle("--locked", self.locked);
        flags.toggle("--offline", self.offline);
        flags.toggle("--frozen", self.frozen);
        flags.repeated("--config", &self.config);
        flags.repeated("-Z", &self.unstable);
        assert(views(flags.0@) =~= self.spec_metadata_flags());
        flags.0
    }

    /// Name of the target subdirectory cargo writes artifacts to for the
    /// selected profile: `dev`/`test` land in `debug`, `bench` in `release`.
    pub fn profile_dir(&self) -> (r: &str)
        ensures
            r@ == spec_profile_dir(opt_view(self.profile), self.release),
    {
        match &self.profile {
            Some(p) => {
                if str_eq(p.as_str(), "dev") || str_eq(p.as_str(), "test") {
                    "debug"
                } else if str_eq(p.as_str(), "bench") {
                    "release"
                } else {
                    p.as_str()
                }
            },
            None => {
                if self.release {
                    "release"
                } else {
                    "debug"
                }
            },
        }
    }
}

/// Appends the feature names found in one `--features` value.
fn push_feature_tokens<'a>(out: &mut Vec<&'a str>, value: &'a str)
    ensures
        str_views(final(out)@) == str_views(old(out)@) + feature_tokens(value@),
{
    let ghost base = str_views(out@);
    let ghost sep = |c: char| is_feature_separator(c);
    let n: usize = value.unicode_len();
    let mut start: usize = 0;
    let mut i: usize = 0;
    proof {
        assert(value@.take(0) =~= Seq::<char>::empty());
        assert(value@.subrange(0, 0) =~= Seq::<char>::empty());
    }
    while i < n
        invariant
            0 <= start <= i <= n,
            n == value@.len(),
            sep == (|c: char| is_feature_separator(c)),
            split_on(value@.take(i as int), sep).len() >= 1,
            split_on(value@.take(i as int), sep).last() == value@.subrange(start as int, i as int),
            str_views(out@) == base + drop_empty(split_on(value@.take(i as int), sep).drop_last()),
        decreases n - i,
    {
        let c = value.get_char(i);
        let ghost prev = split_on(value@.take(i as int), sep);
        proof {
            assert(value@.take(i + 1).drop_last() =~= value@.take(i as int));
            assert(value@.take(i + 1).last() == c);
        }
        if c == ',' || c == ' ' {
            proof {
                assert(split_on(value@.take(i + 1), sep) == prev.push(Seq::<char>::empty()));
                assert(prev.push(Seq::<char>::empty()).drop_last() =~= prev);
            }
            if i > start {
                let ghost o = out@;
                let piece = value.substring_char(start, i);
                out.push(piece);
                assert(str_views(out@) =~= str_views(o).push(piece@));
                proof {
                    assert(str_views(out@) =~= base + drop_empty(prev.drop_last()).push(prev.last()));
                }
            } else {
                assert(prev.last().len() == 0);
            }
            start = i + 1;
            proof {
                assert(value@.subrange(start as int, i + 1) =~= Seq::<char>::empty());
            }
        } else {
            proof {
                let next = prev.update(prev.len() - 1, prev.last().push(c));
                assert(split_on(value@.take(i + 1), sep) == next);
                assert(next.drop_last() =~= prev.drop_last());
                assert(next.last() =~= value@.subrange(start as int, i + 1));
                lemma_split_on_nonempty(value@.take(i + 1), sep);
            }
        }
        i = i + 1;
    }
    let ghost fields = split_on(value@.take(n as int), sep);
    proof {
        assert(value@.take(n as int) =~= value@);
    }
    if n > start {
        let ghost o = out@;
        let piece = value.substring_char(start, n);
        out.push(piece);
        assert(str_views(out@) =~= str_views(o).push(piece@));
        assert(str_views(out@) =~= base + drop_empty(fields.drop_last()).push(fields.last()));
    }
    assert(fields =~= fields.drop_last().push(fields.last()));
    assert(drop_empty(fields) == if fields.last().len() == 0 {
        drop_empty(fields.drop_last())
    } else {
        drop_empty(fields.drop_last()).push(fields.last())
    });
}

/// Accumulator for a cargo command line.
struct Flags(Vec<String>);

impl Flags {
    fn flag(&mut self, name: &str)
        ensures
            views(final(self).0@) == views(old(self).0@).push(name@),
    {
        self.0.push(name.to_string());
        assert(views(self.0@) =~= views(old(self).0@).push(name@));
    }

    fn toggle(&mut self, name: &str, enabled: bool)
        ensures
            views(final(self).0@) == views(old(self).0@) + toggle_flag(name@, enabled),
    {
        if enabled {
            self.flag(name);
        }
        assert(views(self.0@) =~= views(old(self).0@) + toggle_flag(name@, enabled));
    }

    fn value(&mut self, name: &str, value: &str)
        ensures
            views(final(self).0@) == views(old(self).0@) + seq![name@, value@],
    {
        self.flag(name);
        self.flag(value);
        assert(views(self.0@) =~= views(old(self).0@) + seq![name@, value@]);
    }

    fn optional(&mut self, name: &str, value: &Option<String>)
        ensures
            views(final(self).0@) == views(old(self).0@) + opt_flag(name@, *value),
    {
        match value {
            Some(v) => self.value(name, v.as_str()),
            None => {},
        }
        assert(views(self.0@) =~= views(old(self).0@) + opt_flag(name@, *value));
    }

    fn repeated(&mut self, name: &str, values: &Vec<String>)
        ensures
            views(final(self).0@) == views(old(self).0@) + repeated_flag(name@, views(values@)),
    {
        let ghost start = views(self.0@);
        let mut i: usize = 0;
        while i < values.len()
            invariant
                0 <= i <= values.len(),
                views(self.0@) == start + repeated_flag(name@, views(values@).take(i as int)),
            decreases values.len() - i,
        {
            self.value(name, values[i].as_str());
            proof {
                let vs = views(values@);
                assert(vs.take(i + 1).drop_last() =~= vs.take(i as int));
                assert(views(self.0@) =~= start + repeated_flag(name@, vs.take(i + 1)));
            }
            i = i + 1;
        }
        assert(views(values@).take(values.len() as int) =~= views(values@));
    }
}

proof fn lemma_split_fields_have_no_separator(s: Seq<char>)
    ensures
        forall|i: int, j: int|
            0 <= i < feature_fields(s).len() && 0 <= j < feature_fields(s)[i].len()
                ==> !is_feature_separator(#[trigger] feature_fields(s)[i][j]),
    decreases s.len(),
{
    let sep = |c: char| is_feature_separator(c);
    if s.len() > 0 {
        lemma_split_fields_have_no_separator(s.drop_last());
        lemma_split_on_nonempty(s.drop_last(), sep);
        let init = feature_fields(s.drop_last());
        let fields = feature_fields(s);
        assert forall|i: int, j: int| 0 <= i < fields.len() && 0 <= j < fields[i].len() implies !is_feature_separator(
            #[trigger] fields[i][j],
        ) by {
            if i < init.len() - 1 || (i == init.len() - 1 && sep(s.last())) {
                assert(fields[i] == init[i]);
                assert(!is_feature_separator(init[i][j]));
            } else if i == init.len() - 1 {
                assert(fields[i] == init.last().push(s.last()));
                if j < init.last().len() {
                    assert(!is_feature_separator(init[i][j]));
                }
            }
        }
    }
}

proof fn lemma_drop_empty_members(ss: Seq<Seq<char>>)
    ensures
        forall|i: int| 0 <= i < drop_empty(ss).len() ==> #[trigger] drop_empty(ss)[i].len() > 0
            && ss.contains(drop_empty(ss)[i]),
    decreases ss.len(),
{
    if ss.len() > 0 {
        lemma_drop_empty_members(ss.drop_last());
        let init = drop_empty(ss.drop_last());
        assert forall|i: int| 0 <= i < drop_empty(ss).len() implies #[trigger] drop_empty(ss)[i].len()
            > 0 && ss.contains(drop_empty(ss)[i]) by {
            if i < init.len() {
                assert(drop_empty(ss)[i] == init[i]);
                let k: int = choose|k: int| 0 <= k < ss.drop_last().len() && ss.drop_last()[k] == init[i];
                assert(ss[k] == init[i]);
            } else {
                assert(drop_empty(ss)[i] == ss.last());
                assert(ss[ss.len() - 1] == ss.last());
            }
        }
    }
}

/// Every requested feature name is non-empty and holds neither a comma nor a
/// space: both spellings, `a,b` and `"a b"`, are split into single names.
pub proof fn feature_names_are_split(values: Seq<Seq<char>>)
    ensures
        forall|i: int|
            0 <= i < features_of(values).len() ==> #[trigger] features_of(values)[i].len() > 0
                && forall|j: int|
                0 <= j < features_of(values)[i].len() ==> !is_feature_separator(
                    features_of(values)[i][j],
                ),
    decreases values.len(),
{
    if values.len() > 0 {
        feature_names_are_split(values.drop_last());
        let init = features_of(values.drop_last());
        let last = values.last();
        let sep = |c: char| is_feature_separator(c);
        lemma_drop_empty_members(feature_fields(last));
        lemma_split_fields_have_no_separator(last);
        let tokens = feature_tokens(last);
        assert forall|i: int| 0 <= i < features_of(values).len() implies #[trigger] features_of(
            values,
        )[i].len() > 0 && forall|j: int|
            0 <= j < features_of(values)[i].len() ==> !is_feature_separator(
                features_of(values)[i][j],
            ) by {
            if i < init.len() {
                assert(features_of(values)[i] == init[i]);
            } else {
                let t = tokens[i - init.len()];
                assert(features_of(values)[i] == t);
                assert(feature_fields(last).contains(t));
                let k: int = choose|k: int|
                    0 <= k < feature_fields(last).len() && feature_fields(last)[k] == t;
                assert forall|j: int| 0 <= j < t.len() implies !is_feature_separator(t[j]) by {
                    assert(!is_feature_separator(feature_fields(last)[k][j]));
                }
            }
        }
    }
}

proof fn lemma_fields_append_plain(a: Seq<char>, b: Seq<char>)
    requires
        forall|j: int| 0 <= j < b.len() ==> !is_feature_separator(#[trigger] b[j]),
    ensures
        feature_fields(a).len() >= 1,
        feature_fields(a + b) == feature_fields(a).update(
            feature_fields(a).len() - 1,
            feature_fields(a).last() + b,
        ),
    decreases b.len(),
{
    let sep = |c: char| is_feature_separator(c);
    lemma_split_on_nonempty(a, sep);
    let fa = feature_fields(a);
    if b.len() == 0 {
        assert(a + b =~= a);
        assert(fa.last() + b =~= fa.last());
        assert(fa.update(fa.len() - 1, fa.last()) =~= fa);
    } else {
        let b0 = b.drop_last();
        lemma_fields_append_plain(a, b0);
        assert((a + b).drop_last() =~= a + b0);
        assert((a + b).last() == b.last());
        assert(!is_feature_separator(b[b.len() - 1]));
        let init = feature_fields(a + b0);
        assert(init.len() == fa.len());
        assert(init.last() == fa.last() + b0);
        assert((fa.last() + b0).push(b.last()) =~= fa.last() + b);
        assert(init.update(init.len() - 1, init.last().push(b.last())) =~= fa.update(
            fa.len() - 1,
            fa.last() + b,
        ));
    }
}

proof fn lemma_fields_of_join(t: Seq<Seq<char>>, s: char)
    requires
        is_feature_separator(s),
        t.len() >= 1,
        forall|i: int, j: int|
            0 <= i < t.len() && 0 <= j < t[i].len() ==> !is_feature_separator(#[trigger] t[i][j]),
    ensures
        feature_fields(join(t, seq![s])) == t,
    decreases t.len(),
{
    let empty = Seq::<char>::empty();
    if t.len() == 1 {
        assert forall|j: int| 0 <= j < t[0].len() implies !is_feature_separator(#[trigger] t[0][j]) by {
            assert(!is_feature_separator(t[0][j]));
        }
        lemma_fields_append_plain(empty, t[0]);
        assert(empty + t[0] =~= t[0]);
        assert(feature_fields(empty) =~= seq![empty]);
        assert(seq![empty].update(0, empty + t[0]) =~= t);
    } else {
        let init = t.drop_last();
        assert forall|i: int, j: int| 0 <= i < init.len() && 0 <= j < init[i].len() implies !is_feature_separator(
            #[trigger] init[i][j],
        ) by {
            assert(init[i] == t[i]);
        }
        lemma_fields_of_join(init, s);
        let head = join(init, seq![s]);
        let last = t.last();
        assert(join(t, seq![s]) == head + seq![s] + last);
        let pushed = head.push(s);
        assert(head + seq![s] =~= pushed);
        assert(pushed.drop_last() =~= head);
        assert(feature_fields(pushed) == init.push(empty));
        assert forall|j: int| 0 <= j < last.len() implies !is_feature_separator(#[trigger] last[j]) by {
            assert(!is_feature_separator(t[t.len() - 1][j]));
        }
        lemma_fields_append_plain(pushed, last);
        assert(empty + last =~= last);
        assert(init.push(empty).update(init.len() as int, empty + last) =~= t);
    }
}

proof fn lemma_drop_empty_keeps_names(ss: Seq<Seq<char>>)
    requires
        forall|i: int| 0 <= i < ss.len() ==> (#[trigger] ss[i]).len() > 0,
    ensures
        drop_empty(ss) == ss,
    decreases ss.len(),
{
    if ss.len() > 0 {
        let init = ss.drop_last();
        assert forall|i: int| 0 <= i < init.len() implies (#[trigger] init[i]).len() > 0 by {
            assert(init[i] == ss[i]);
        }
        lemma_drop_empty_keeps_names(init);
        assert(ss[ss.len() - 1].len() > 0);
        assert(init.push(ss.last()) =~= ss);
    }
}

proof fn lemma_rejoined_names_split_back(names: Seq<Seq<char>>, s: char)
    requires
        is_feature_separator(s),
        forall|i: int| 0 <= i < names.len() ==> (#[trigger] names[i]).len() > 0,
        forall|i: int, j: int|
            0 <= i < names.len() && 0 <= j < names[i].len() ==> !is_feature_separator(#[trigger] names[i][j]),
    ensures
        features_of(seq![join(names, seq![s])]) == names,
{
    let value = join(names, seq![s]);
    let none = Seq::<Seq<char>>::empty();
    assert(seq![value].drop_last() =~= none);
    assert(features_of(none) == none);
    assert(seq![value].last() == value);
    assert(features_of(seq![value]) =~= none + feature_tokens(value));
    assert(none + feature_tokens(value) =~= feature_tokens(value));
    if names.len() == 0 {
        assert(value =~= Seq::<char>::empty());
        assert(feature_fields(value) =~= seq![Seq::<char>::empty()]);
        let fields = seq![Seq::<char>::empty()];
        assert(fields.drop_last() =~= none);
        assert(drop_empty(none) == none);
        assert(drop_empty(fields) =~= none);
    } else {
        lemma_fields_of_join(names, s);
        lemma_drop_empty_keeps_names(names);
    }
}

/// Normalising an already normalised feature list changes nothing: the
/// flattened names, joined back with commas or with spaces into a single
/// `--features` value, flatten to the same names.
pub proof fn feature_list_normalisation_is_idempotent(values: Seq<Seq<char>>)
    ensures
        features_of(seq![join(features_of(values), ","@)]) == features_of(values),
        features_of(seq![join(features_of(values), " "@)]) == features_of(values),
{
    reveal_strlit(",");
    reveal_strlit(" ");
    assert(","@ =~= seq![',']);
    assert(" "@ =~= seq![' ']);
    feature_names_are_split(values);
    let names = features_of(values);
    assert forall|i: int, j: int| 0 <= i < names.len() && 0 <= j < names[i].len() implies !is_feature_separator(
        #[trigger] names[i][j],
    ) by {
        assert(names[i].len() > 0);
    }
    lemma_rejoined_names_split_back(names, ',');
    lemma_rejoined_names_split_back(names, ' ');
}

proof fn lemma_fields_keep_other_chars(v: Seq<char>)
    ensures
        feature_fields(v).flatten_alt() == v.filter(|c: char| c != ',' && c != ' '),
    decreases v.len(),
{
    let sep = |c: char| is_feature_separator(c);
    let keep = |c: char| c != ',' && c != ' ';
    let none = Seq::<char>::empty();
    if v.len() == 0 {
        reveal(Seq::filter);
        let fv = feature_fields(v);
        assert(fv =~= seq![none]);
        assert(fv.drop_last() =~= Seq::<Seq<char>>::empty());
        assert(Seq::<Seq<char>>::empty().flatten_alt() == none);
        assert(fv.last() == none);
        assert(fv.flatten_alt() == fv.drop_last().flatten_alt() + fv.last());
        assert(fv.flatten_alt() =~= none);
        assert(v.filter(keep) =~= none);
    } else {
        let w = v.drop_last();
        let c = v.last();
        lemma_fields_keep_other_chars(w);
        lemma_split_on_nonempty(w, sep);
        assert(w.push(c) =~= v);
        w.lemma_filter_push(c, keep);
        let fw = feature_fields(w);
        let fv = feature_fields(v);
        if is_feature_separator(c) {
            assert(fv == fw.push(none));
            assert(fv.drop_last() =~= fw);
            assert(fv.flatten_alt() =~= fw.flatten_alt());
            assert(!keep(c));
        } else {
            assert(fv == fw.update(fw.len() - 1, fw.last().push(c)));
            assert(fv.drop_last() =~= fw.drop_last());
            assert(fv.last() == fw.last().push(c));
            assert(fv.flatten_alt() == fv.drop_last().flatten_alt() + fv.last());
            assert(fw.flatten_alt() == fw.drop_last().flatten_alt() + fw.last());
            assert(fv.flatten_alt() =~= fw.flatten_alt().push(c));
            assert(keep(c));
        }
    }
}

proof fn lemma_drop_empty_flattens_alike(ss: Seq<Seq<char>>)
    ensures
        drop_empty(ss).flatten_alt() == ss.flatten_alt(),
    decreases ss.len(),
{
    if ss.len() > 0 {
        let init = ss.drop_last();
        lemma_drop_empty_flattens_alike(init);
        if ss.last().len() == 0 {
            assert(ss.flatten_alt() =~= init.flatten_alt());
        } else {
            let d = drop_empty(ss);
            assert(d == drop_empty(init).push(ss.last()));
            assert(d.drop_last() =~= drop_empty(init));
            assert(d.last() == ss.last());
        }
    }
}

/// Splitting a `--features` value breaks it only at commas and spaces: its
/// names hold, in order, exactly the value's other characters, so a name
/// such as `serde/derive` survives whole; and a non-empty value with neither
/// a comma nor a space is a single name, itself.
pub proof fn feature_values_split_only_at_commas_and_spaces(v: Seq<char>)
    ensures
        features_of(seq![v]).flatten() == v.filter(|c: char| c != ',' && c != ' '),
        v.len() > 0 && (forall|j: int| 0 <= j < v.len() ==> v[j] != ',' && v[j] != ' ')
            ==> features_of(seq![v]) == seq![v],
{
    let none = Seq::<Seq<char>>::empty();
    assert(seq![v].drop_last() =~= none);
    assert(features_of(none) == none);
    assert(seq![v].last() == v);
    assert(features_of(seq![v]) =~= none + feature_tokens(v));
    assert(none + feature_tokens(v) =~= feature_tokens(v));
    lemma_fields_keep_other_chars(v);
    lemma_drop_empty_flattens_alike(feature_fields(v));
    feature_tokens(v).lemma_flatten_and_flatten_alt_are_equivalent();
    if v.len() > 0 && (forall|j: int| 0 <= j < v.len() ==> v[j] != ',' && v[j] != ' ') {
        let empty = Seq::<char>::empty();
        assert forall|j: int| 0 <= j < v.len() implies !is_feature_separator(#[trigger] v[j]) by {
            assert(v[j] != ',' && v[j] != ' ');
        }
        lemma_fields_append_plain(empty, v);
        assert(empty + v =~= v);
        assert(feature_fields(empty) =~= seq![empty]);
        assert(feature_fields(v) =~= seq![v]);
        lemma_drop_empty_keeps_names(seq![v]);
    }
}

/// Cargo options left unset forward nothing: with no option given, there is
/// nothing to pass to the build or to `cargo metadata`.
pub proof fn unset_options_forward_nothing(args: CargoArgs)
    requires
        args.is_empty(),
    ensures
        args.spec_forward_flags() == Seq::<Seq<char>>::empty(),
        args.spec_metadata_flags() == Seq::<Seq<char>>::empty(),
{
    assert(views(args.features@) =~= Seq::<Seq<char>>::empty());
    assert(views(args.config@) =~= Seq::<Seq<char>>::empty());
    assert(views(args.unstable@) =~= Seq::<Seq<char>>::empty());
    assert(args.spec_metadata_flags() =~= Seq::<Seq<char>>::empty());
    assert(args.spec_build_flags() =~= Seq::<Seq<char>>::empty());
    assert(args.spec_display_flags() =~= Seq::<Seq<char>>::empty());
    assert(args.spec_forward_flags() =~= Seq::<Seq<char>>::empty());
}

/// Target and package selection are never forwarded: the target is resolved
/// against the metadata first and passed explicitly, so two option sets that
/// differ only in `--package`, `--bin` or `--example` forward the same flags.
#[verifier::spinoff_prover]
pub proof fn selection_is_not_forwarded(a: CargoArgs, b: CargoArgs)
    requires
        ({
            let a_free = CargoArgs { package: None, bin: None, example: None, ..a };
            let b_free = CargoArgs { package: None, bin: None, example: None, ..b };
            a_free == b_free
        }),
    ensures
        a.spec_forward_flags() == b.spec_forward_flags(),
        a.spec_metadata_flags() == b.spec_metadata_flags(),
{
    assert(a.features == b.features && a.config == b.config && a.unstable == b.unstable);
}

/// `cargo metadata` resolves the workspace the way the build does: the
/// manifest, lockfile, network and configuration flags it is given appear,
/// unchanged and in the same order, among the flags forwarded to the build.
pub proof fn metadata_flags_are_shared_with_the_build(args: CargoArgs)
    ensures
        ({
            let start = args.spec_build_flags().len() as int;
            let metadata = args.spec_metadata_flags();
            args.spec_forward_flags().subrange(start, start + metadata.len()) == metadata
        }),
{
    let start = args.spec_build_flags().len() as int;
    let metadata = args.spec_metadata_flags();
    assert(args.spec_forward_flags().subrange(start, start + metadata.len()) =~= metadata);
}

/// The `cargo metadata` flags depend only on the manifest, lockfile, network
/// and configuration options: a build-only option such as
/// `--ignore-rust-version`, which `cargo metadata` rejects, never reaches them.
pub proof fn metadata_flags_ignore_build_options(a: CargoArgs, b: CargoArgs)
    requires
        a.manifest_path == b.manifest_path,
        a.lockfile_path == b.lockfile_path,
        a.locked == b.locked,
        a.offline == b.offline,
        a.frozen == b.frozen,
        a.config == b.config,
        a.unstable == b.unstable,
    ensures
        a.spec_metadata_flags() == b.spec_metadata_flags(),
{
}

/// Drops the leading `serve` token that cargo injects when the tool is
/// invoked as `cargo serve`, so the binary behaves the same whether run as
/// `cargo serve …` or directly as `cargo-serve …`.
pub fn strip_serve_subcommand(args: Vec<String>) -> (r: Vec<String>)
    ensures
        r@ == if args@.len() > 1 && args@[1]@ == "serve"@ {
            args@.remove(1)
        } else {
            args@
        },
{
    let mut args = args;
    if args.len() > 1 && str_eq(args[1].as_str(), "serve") {
        args.remove(1);
    }
    args
}

} // verus!
