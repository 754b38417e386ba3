//! Path text logic: the display name of a path, the noise filter over path
//! segments, the hidden-name rule, and the normalization applied to resolved
//! path text.  Paths are handled purely as text; resolving a path against
//! the filesystem is the caller's business.

use vstd::prelude::*;

verus! {

/// Path separator characters recognized in path text.
pub open spec fn is_sep(c: char) -> bool {
    c == '/' || c == '\\'
}

fn is_sep_exec(c: char) -> (r: bool)
    ensures
        r == is_sep(c),
{
    c == '/' || c == '\\'
}

/// Character-wise string equality.
pub fn str_eq(a: &str, b: &str) -> (r: bool)
    ensures
        r == (a@ == b@),
{
    let an = a.unicode_len();
    let bn = b.unicode_len();
    if an != bn {
        return false;
    }
    let mut i: usize = 0;
    while i < an
        invariant
            an == a@.len(),
            bn == b@.len(),
            an == bn,
            0 <= i <= an,
            forall|j: int| 0 <= j < i ==> a@[j] == b@[j],
        decreases an - i,
    {
        if a.get_char(i) != b.get_char(i) {
            return false;
        }
        i += 1;
    }
    proof {
        assert(a@ =~= b@);
    }
    true
}

/// A full path segment equal to `w` occurs in `s`: the match is bounded on
/// each side by a separator or by the end of the text.
pub open spec fn has_segment(s: Seq<char>, w: Seq<char>) -> bool {
    exists|p: int|
        0 <= p && p + w.len() <= s.len() && #[trigger] s.subrange(p, p + w.len() as int) == w && (p
            == 0 || is_sep(s[p - 1])) && (p + w.len() == s.len() || is_sep(s[p + w.len()]))
}

/// Whether the segment of `s` starting at `p` matches `w` with segment
/// boundaries on both sides.
fn segment_matches_at(s: &str, p: usize, w: &str) -> (r: bool)
    requires
        p + w@.len() <= s@.len(),
        s@.len() < usize::MAX,
    ensures
        r == (s@.subrange(p as int, p + w@.len() as int) == w@ && (p == 0 || is_sep(
            s@[p as int - 1],
        )) && (p + w@.len() == s@.len() || is_sep(s@[p as int + w@.len()]))),
{
    let wn = w.unicode_len();
    let sn = s.unicode_len();
    if p != 0 && !is_sep_exec(s.get_char(p - 1)) {
        return false;
    }
    if p + wn != sn && !is_sep_exec(s.get_char(p + wn)) {
        return false;
    }
    let mut i: usize = 0;
    while i < wn
        invariant
            wn == w@.len(),
            sn == s@.len(),
            p + wn <= sn,
            0 <= i <= wn,
            forall|j: int| 0 <= j < i ==> s@[p + j] == w@[j],
        decreases wn - i,
    {
        if s.get_char(p + i) != w.get_char(i) {
            proof {
                assert(s@.subrange(p as int, p + w@.len() as int)[i as int] == s@[p + i]);
            }
            return false;
        }
        i += 1;
    }
    proof {
        assert(s@.subrange(p as int, p + w@.len() as int) =~= w@);
    }
    true
}

/// Whether some full segment of `s` equals `w`.
pub fn contains_segment(s: &str, w: &str) -> (r: bool)
    requires
        s@.len() < usize::MAX,
    ensures
        r == has_segment(s@, w@),
{
    let wn = w.unicode_len();
    let sn = s.unicode_len();
    if wn > sn {
        proof {
            assert(!has_segment(s@, w@));
        }
        return false;
    }
    let mut p: usize = 0;
    while p <= sn - wn
        invariant
            wn == w@.len(),
            sn == s@.len(),
            wn <= sn < usize::MAX,
            0 <= p <= sn - wn + 1,
            forall|q: int|
                0 <= q < p ==> !(#[trigger] s@.subrange(q, q + w@.len() as int) == w@ && (q == 0
                    || is_sep(s@[q - 1])) && (q + w@.len() == s@.len() || is_sep(
                    s@[q + w@.len()],
                ))),
        decreases sn - wn - p + 1,
    {
        if segment_matches_at(s, p, w) {
            return true;
        }
        p += 1;
    }
    false
}

/// Directory names whose contents are noise: version-control metadata,
/// build output, dependency trees.
pub open spec fn spec_is_noise_path(s: Seq<char>) -> bool {
    has_segment(s, ".git"@) || has_segment(s, "target"@) || has_segment(s, "node_modules"@)
}

/// Whether any segment of the path names an ignored directory.
pub fn is_noise_path(s: &str) -> (r: bool)
    requires
        s@.len() < usize::MAX,
    ensures
        r == spec_is_noise_path(s@),
{
    contains_segment(s, ".git") || contains_segment(s, "target") || contains_segment(
        s,
        "node_modules",
    )
}

/// A dot-leading file name is hidden unless it is allow-listed.
pub open spec fn spec_is_hidden_name(name: Seq<char>) -> bool {
    name.len() > 0 && name[0] == '.' && name != ".gitignore"@
}

/// Whether the base name is hidden and not allow-listed.
pub fn is_hidden_name(name: &str) -> (r: bool)
    ensures
        r == spec_is_hidden_name(name@),
{
    let n = name.unicode_len();
    if n == 0 {
        return false;
    }
    if name.get_char(0) != '.' {
        return false;
    }
    !str_eq(name, ".gitignore")
}

/// The text with trailing separators removed.
pub open spec fn spec_rstrip_seps(s: Seq<char>) -> Seq<char>
    decreases s.len(),
{
    if s.len() > 0 && is_sep(s.last()) {
        spec_rstrip_seps(s.drop_last())
    } else {
        s
    }
}

/// The longest separator-free suffix of the text.
pub open spec fn spec_tail_segment(s: Seq<char>) -> Seq<char>
    decreases s.len(),
{
    if s.len() == 0 {
        s
    } else if is_sep(s.last()) {
        Seq::empty()
    } else {
        spec_tail_segment(s.drop_last()).push(s.last())
    }
}

/// The display name of a path: the last segment once trailing separators
/// are dropped, or a placeholder where no usable segment remains.
pub open spec fn spec_base_name(s: Seq<char>) -> Seq<char> {
    let t = spec_tail_segment(spec_rstrip_seps(s));
    if t.len() == 0 || t == "."@ || t == ".."@ {
        "unknown"@
    } else {
        t
    }
}

/// A separator-free suffix preceded by a separator (or the start of the
/// text) is exactly the tail segment.
proof fn lemma_tail_segment(t: Seq<char>, k: int)
    requires
        0 <= k <= t.len(),
        forall|j: int| k <= j < t.len() ==> !is_sep(#[trigger] t[j]),
        k == 0 || is_sep(t[k - 1]),
    ensures
        spec_tail_segment(t) == t.subrange(k, t.len() as int),
    decreases t.len(),
{
    if k == t.len() {
        if t.len() == 0 {
            assert(spec_tail_segment(t) =~= t.subrange(k, t.len() as int));
        } else {
            assert(is_sep(t.last()));
            assert(spec_tail_segment(t) =~= t.subrange(k, t.len() as int));
        }
    } else {
        assert(!is_sep(t.last()));
        let d = t.drop_last();
        lemma_tail_segment(d, k);
        assert(spec_tail_segment(d) == d.subrange(k, d.len() as int));
        assert(spec_tail_segment(t) == spec_tail_segment(d).push(t.last()));
        assert(d.subrange(k, d.len() as int).push(t.last()) =~= t.subrange(k, t.len() as int));
    }
}

/// The display name of a path, computed from its text alone.
pub fn base_name(path: &str) -> (r: String)
    requires
        path@.len() < usize::MAX,
    ensures
        r@ == spec_base_name(path@),
{
    let n = path.unicode_len();
    let mut end: usize = n;
    proof {
        assert(path@.subrange(0, n as int) =~= path@);
    }
    while end > 0 && is_sep_exec(path.get_char(end - 1))
        invariant
            n == path@.len(),
            0 <= end <= n,
            spec_rstrip_seps(path@) == spec_rstrip_seps(path@.subrange(0, end as int)),
        decreases end,
    {
        proof {
            let cur = path@.subrange(0, end as int);
            assert(cur.len() > 0 && is_sep(cur.last()));
            assert(cur.drop_last() =~= path@.subrange(0, end - 1));
        }
        end -= 1;
    }
    proof {
        let cur = path@.subrange(0, end as int);
        if end > 0 {
            assert(!is_sep(cur.last()));
        }
        assert(spec_rstrip_seps(cur) == cur);
        if end == n {
            assert(path@.subrange(0, end as int) =~= path@);
        }
    }
    let mut start: usize = end;
    while start > 0 && !is_sep_exec(path.get_char(start - 1))
        invariant
            n == path@.len(),
            0 <= start <= end <= n,
            forall|j: int| start <= j < end ==> !is_sep(#[trigger] path@[j]),
        decreases start,
    {
        start -= 1;
    }
    let seg = path.substring_char(start, end);
    proof {
        let t = path@.subrange(0, end as int);
        assert forall|j: int| start <= j < t.len() implies !is_sep(#[trigger] t[j]) by {
            assert(t[j] == path@[j]);
        }
        if start > 0 {
            assert(is_sep(t[start - 1]));
        }
        lemma_tail_segment(t, start as int);
        assert(t.subrange(start as int, t.len() as int) =~= path@.subrange(
            start as int,
            end as int,
        ));
    }
    if seg.unicode_len() == 0 || str_eq(seg, ".") || str_eq(seg, "..") {
        let r = String::from_str("unknown");
        r
    } else {
        seg.to_owned()
    }
}

/// The strip applied to resolved path text: every leading Windows verbatim
/// prefix is removed.
pub open spec fn spec_normalize_text(s: Seq<char>) -> Seq<char>
    decreases s.len(),
{
    if s.len() >= 4 && s[0] == '\\' && s[1] == '\\' && s[2] == '?' && s[3] == '\\' {
        spec_normalize_text(s.subrange(4, s.len() as int))
    } else {
        s
    }
}

/// Normalize resolved path text by stripping leading verbatim prefixes.
pub fn normalize_path_text(s: &str) -> (r: String)
    requires
        s@.len() < usize::MAX,
    ensures
        r@ == spec_normalize_text(s@),
{
    let mut start: usize = 0;
    let n = s.unicode_len();
    proof {
        assert(s@.subrange(0, n as int) =~= s@);
    }
    while n - start >= 4 && s.get_char(start) == '\\' && s.get_char(start + 1) == '\\'
        && s.get_char(start + 2) == '?' && s.get_char(start + 3) == '\\'
        invariant
            n == s@.len(),
            0 <= start <= n,
            spec_normalize_text(s@) == spec_normalize_text(s@.subrange(start as int, n as int)),
        decreases n - start,
    {
        proof {
            let cur = s@.subrange(start as int, n as int);
            assert(cur.len() >= 4);
            assert(cur[0] == '\\' && cur[1] == '\\' && cur[2] == '?' && cur[3] == '\\');
            assert(cur.subrange(4, cur.len() as int) =~= s@.subrange(start + 4, n as int));
        }
        start += 4;
    }
    proof {
        let cur = s@.subrange(start as int, n as int);
        assert(spec_normalize_text(cur) == cur);
    }
    let out = s.substring_char(start, n);
    out.to_owned()
}

} // verus!
