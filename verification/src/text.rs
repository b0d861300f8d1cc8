//! Character-sequence helpers shared by the command-line and path logic:
//! splitting, joining, decimal rendering and Unix path joining.
use vstd::prelude::*;
use vstd::string::*;

verus! {

/// Fields of `s` between characters satisfying `is_sep`, empty fields
/// included, exactly as `str::split` yields them.
pub open spec fn split_on(s: Seq<char>, is_sep: spec_fn(char) -> bool) -> Seq<Seq<char>>
    decreases s.len(),
{
    if s.len() == 0 {
        seq![Seq::<char>::empty()]
    } else {
        let init = split_on(s.drop_last(), is_sep);
        if is_sep(s.last()) {
            init.push(Seq::<char>::empty())
        } else {
            init.update(init.len() - 1, init.last().push(s.last()))
        }
    }
}

/// The non-empty members of `ss`, in order.
pub open spec fn drop_empty(ss: Seq<Seq<char>>) -> Seq<Seq<char>>
    decreases ss.len(),
{
    if ss.len() == 0 {
        ss
    } else {
        let init = drop_empty(ss.drop_last());
        if ss.last().len() == 0 {
            init
        } else {
            init.push(ss.last())
        }
    }
}

/// `parts` joined with `sep` between consecutive members.
pub open spec fn join(parts: Seq<Seq<char>>, sep: Seq<char>) -> Seq<char>
    decreases parts.len(),
{
    if parts.len() == 0 {
        Seq::empty()
    } else if parts.len() == 1 {
        parts[0]
    } else {
        join(parts.drop_last(), sep) + sep + parts.last()
    }
}

/// The character views of a sequence of strings.
pub open spec fn views(v: Seq<String>) -> Seq<Seq<char>> {
    v.map_values(|s: String| s@)
}

/// The character views of a sequence of string slices.
pub open spec fn str_views(v: Seq<&str>) -> Seq<Seq<char>> {
    v.map_values(|s: &str| s@)
}

/// The character view of an optional string.
pub open spec fn opt_view(o: Option<String>) -> Option<Seq<char>> {
    match o {
        Some(s) => Some(s@),
        None => None,
    }
}

/// The character view of an optional string slice.
pub open spec fn opt_str_view(o: Option<&str>) -> Option<Seq<char>> {
    match o {
        Some(s) => Some(s@),
        None => None,
    }
}

pub open spec fn digit_char(d: nat) -> char {
    seq!['0', '1', '2', '3', '4', '5', '6', '7', '8', '9'][d as int]
}

/// Decimal rendering of `n`, without leading zeros.
pub open spec fn decimal(n: nat) -> Seq<char>
    decreases n,
{
    if n < 10 {
        seq![digit_char(n)]
    } else {
        decimal(n / 10).push(digit_char(n % 10))
    }
}

/// Whether `text` holds two consecutive slashes.
pub open spec fn has_double_slash(text: Seq<char>) -> bool {
    exists|i: int| 0 <= i < text.len() - 1 && #[trigger] text[i] == '/' && text[i + 1] == '/'
}

/// Whether `p` has a `.` component: `.` between two separators, at the
/// start before one, at the end after one, or alone.
pub open spec fn has_dot_component(p: Seq<char>) -> bool {
    exists|i: int|
        0 <= i < p.len() && #[trigger] p[i] == '.' && (i == 0 || p[i - 1] == '/') && (i + 1
            == p.len() || p[i + 1] == '/')
}

/// `PathBuf::push` on Unix: an absolute `part` replaces `base`; otherwise a
/// separator is inserted when `base` is non-empty and does not already end
/// in one.
pub open spec fn path_push(base: Seq<char>, part: Seq<char>) -> Seq<char> {
    if part.len() > 0 && part[0] == '/' {
        part
    } else if base.len() > 0 && base.last() != '/' {
        base + seq!['/'] + part
    } else {
        base + part
    }
}

pub proof fn lemma_split_on_nonempty(s: Seq<char>, is_sep: spec_fn(char) -> bool)
    ensures
        split_on(s, is_sep).len() >= 1,
    decreases s.len(),
{
    if s.len() > 0 {
        lemma_split_on_nonempty(s.drop_last(), is_sep);
    }
}

pub proof fn lemma_decimal_len(n: nat)
    ensures
        decimal(n).len() >= 1,
        n >= 10 ==> decimal(n).len() >= 2,
    decreases n,
{
    if n >= 10 {
        lemma_decimal_len(n / 10);
    }
}

/// Distinct numbers have distinct decimal renderings.
pub proof fn lemma_decimal_injective(n: nat, m: nat)
    requires
        n != m,
    ensures
        decimal(n) != decimal(m),
    decreases n + m,
{
    lemma_decimal_len(n);
    lemma_decimal_len(m);
    if n < 10 && m < 10 {
        assert(decimal(n)[0] != decimal(m)[0]);
    } else if n < 10 || m < 10 {
        assert(decimal(n).len() != decimal(m).len());
    } else if n % 10 != m % 10 {
        assert(decimal(n).last() != decimal(m).last());
    } else {
        assert(n / 10 != m / 10);
        lemma_decimal_injective(n / 10, m / 10);
        assert(decimal(n).drop_last() == decimal(n / 10));
        assert(decimal(m).drop_last() == decimal(m / 10));
    }
}

/// Decimal rendering of a `u32`.
pub fn decimal_string(n: u32) -> (r: String)
    ensures
        r@ == decimal(n as nat),
    decreases n,
{
    let digits = "0123456789";
    proof {
        reveal_strlit("0123456789");
    }
    let d: usize = (n % 10) as usize;
    let last = digits.substring_char(d, d + 1);
    assert(last@ =~= seq![digit_char(d as nat)]);
    if n < 10 {
        last.to_string()
    } else {
        let mut head = decimal_string(n / 10);
        head.append(last);
        assert(head@ =~= decimal(n as nat));
        head
    }
}

/// Joins `parts` with `sep`, like `[&str]::join`.
pub fn join_strs(parts: &Vec<&str>, sep: &str) -> (r: String)
    ensures
        r@ == join(str_views(parts@), sep@),
{
    let mut out = String::new();
    let ghost all = str_views(parts@);
    let mut i: usize = 0;
    while i < parts.len()
        invariant
            0 <= i <= parts.len(),
            all == str_views(parts@),
            out@ == join(all.take(i as int), sep@),
        decreases parts.len() - i,
    {
        if i > 0 {
            out.append(sep);
        }
        out.append(parts[i]);
        proof {
            assert(all.take(i + 1).drop_last() =~= all.take(i as int));
            if i == 0 {
                assert(out@ =~= all.take(1)[0]);
            }
        }
        i = i + 1;
    }
    assert(all.take(parts.len() as int) =~= all);
    out
}

/// Appends `part` to `base` the way `PathBuf::push` does on Unix.
pub fn push_path(base: &str, part: &str) -> (r: String)
    ensures
        r@ == path_push(base@, part@),
{
    let part_len: usize = part.unicode_len();
    if part_len > 0 && part.get_char(0) == '/' {
        return part.to_string();
    }
    let base_len: usize = base.unicode_len();
    let mut out = base.to_string();
    if base_len > 0 && base.get_char(base_len - 1) != '/' {
        out.append("/");
        proof {
            reveal_strlit("/");
        }
    }
    out.append(part);
    out
}

/// Character-wise equality of two string slices.
pub fn str_eq(a: &str, b: &str) -> (r: bool)
    ensures
        r == (a@ == b@),
{
    let n: usize = a.unicode_len();
    if n != b.unicode_len() {
        return false;
    }
    let mut i: usize = 0;
    while i < n
        invariant
            0 <= i <= n,
            n == a@.len(),
            n == b@.len(),
            forall|j: int| 0 <= j < i ==> a@[j] == b@[j],
        decreases n - i,
    {
        if a.get_char(i) != b.get_char(i) {
            return false;
        }
        i = i + 1;
    }
    assert(a@ =~= b@);
    true
}

} // verus!
