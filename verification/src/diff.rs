//! The diff packager: turns an (old content, new content) pair into the
//! human-readable text shown while a change awaits a decision.  Line-diff
//! computation itself is an outside collaborator; this module renders its
//! grouped output and supplies the fallbacks for degenerate cases.

use vstd::prelude::*;

verus! {

/// Lines of context kept around each group of changed lines.
pub const DIFF_CONTEXT_LINES: usize = 3;

/// How a line of a diff group relates the old text to the new.
#[derive(Clone, Copy, Debug, PartialEq, Eq, Structural)]
pub enum DiffTag {
    Delete,
    Insert,
    Equal,
}

/// One line of a diff group: its tag and its text, newline-terminated.
#[derive(Clone, Debug)]
pub struct DiffLine {
    pub tag: DiffTag,
    pub text: String,
}

/// A group of diff lines as a mathematical value.
pub open spec fn group_view(g: Seq<DiffLine>) -> Seq<(DiffTag, Seq<char>)> {
    g.map_values(|l: DiffLine| (l.tag, l.text@))
}

/// The grouped diff as a mathematical value.
pub open spec fn groups_view(r: Seq<Vec<DiffLine>>) -> Seq<Seq<(DiffTag, Seq<char>)>> {
    r.map_values(|g: Vec<DiffLine>| group_view(g@))
}

/// The grouped line diff of two texts with the given number of context
/// lines.  A function of its arguments alone; computed by the outside
/// line-diff collaborator.
pub uninterp spec fn line_groups_of(old: Seq<char>, new: Seq<char>, context: int) -> Seq<
    Seq<(DiffTag, Seq<char>)>,
>;

/// Relies on similar::TextDiff::from_lines, TextDiff::grouped_ops and
/// DiffOp::iter_changes: the grouped line diff of the two texts, each line
/// tagged and rendered newline-terminated, depending on the texts alone.
#[verifier::external_body]
fn line_diff_groups(old: &str, new: &str, context: usize) -> (r: Vec<Vec<DiffLine>>)
    requires
        context <= usize::MAX / 2,
    ensures
        groups_view(r@) == line_groups_of(old@, new@, context as int),
{
    let diff = similar::TextDiff::from_lines(old, new);
    let line = |ch: similar::Change<&str>| DiffLine {
        tag: match ch.tag() {
            similar::ChangeTag::Delete => DiffTag::Delete,
            similar::ChangeTag::Insert => DiffTag::Insert,
            similar::ChangeTag::Equal => DiffTag::Equal,
        },
        text: ch.to_string(),
    };
    diff.grouped_ops(context)
        .iter()
        .map(|ops| ops.iter().flat_map(|op| diff.iter_changes(op)).map(line).collect())
        .collect()
}

/// The sign that prefixes a rendered diff line.
pub open spec fn spec_sign(tag: DiffTag) -> Seq<char> {
    match tag {
        DiffTag::Delete => "-"@,
        DiffTag::Insert => "+"@,
        DiffTag::Equal => " "@,
    }
}

fn sign_str(tag: DiffTag) -> (r: &'static str)
    ensures
        r@ == spec_sign(tag),
{
    match tag {
        DiffTag::Delete => "-",
        DiffTag::Insert => "+",
        DiffTag::Equal => " ",
    }
}

/// One group rendered: each line prefixed with its sign.
pub open spec fn spec_render_group(g: Seq<(DiffTag, Seq<char>)>) -> Seq<char>
    decreases g.len(),
{
    if g.len() == 0 {
        Seq::empty()
    } else {
        spec_render_group(g.drop_last()) + spec_sign(g.last().0) + g.last().1
    }
}

/// All groups rendered, with an ellipsis line between groups.
pub open spec fn spec_render_groups(gs: Seq<Seq<(DiffTag, Seq<char>)>>) -> Seq<char>
    decreases gs.len(),
{
    if gs.len() == 0 {
        Seq::empty()
    } else if gs.len() == 1 {
        spec_render_group(gs[0])
    } else {
        spec_render_groups(gs.drop_last()) + "...\n"@ + spec_render_group(gs.last())
    }
}

/// Render grouped diff lines into one text.
fn render_groups(groups: &Vec<Vec<DiffLine>>) -> (r: String)
    ensures
        r@ == spec_render_groups(groups_view(groups@)),
{
    let ghost gv = groups_view(groups@);
    let mut out = String::new();
    let n = groups.len();
    proof {
        assert(gv.subrange(0, 0) =~= Seq::<Seq<(DiffTag, Seq<char>)>>::empty());
    }
    let mut i: usize = 0;
    while i < n
        invariant
            n == groups.len(),
            gv == groups_view(groups@),
            0 <= i <= n,
            out@ == spec_render_groups(gv.subrange(0, i as int)),
        decreases n - i,
    {
        let ghost sep: Seq<char> = if i > 0 {
            "...\n"@
        } else {
            Seq::empty()
        };
        if i > 0 {
            out.append("...\n");
        }
        let g = &groups[i];
        let m = g.len();
        proof {
            assert(gv[i as int] == group_view(g@));
            assert(group_view(g@).subrange(0, 0) =~= Seq::<(DiffTag, Seq<char>)>::empty());
        }
        let mut j: usize = 0;
        while j < m
            invariant
                n == groups.len(),
                gv == groups_view(groups@),
                0 <= i < n,
                m == g.len(),
                g == &groups[i as int],
                gv[i as int] == group_view(g@),
                0 <= j <= m,
                sep == if i > 0 {
                    "...\n"@
                } else {
                    Seq::<char>::empty()
                },
                out@ == spec_render_groups(gv.subrange(0, i as int)) + sep + spec_render_group(
                    group_view(g@).subrange(0, j as int),
                ),
            decreases m - j,
        {
            let line = &g[j];
            out.append(sign_str(line.tag));
            out.append(line.text.as_str());
            proof {
                let lv = group_view(g@);
                assert(lv[j as int] == (line.tag, line.text@));
                assert(lv.subrange(0, j + 1).drop_last() =~= lv.subrange(0, j as int));
                assert(lv.subrange(0, j + 1).last() == lv[j as int]);
            }
            j += 1;
        }
        proof {
            assert(group_view(g@).subrange(0, m as int) =~= group_view(g@));
            let pre = gv.subrange(0, i as int);
            let ext = gv.subrange(0, i + 1);
            assert(ext.drop_last() =~= pre);
            assert(ext.last() == gv[i as int]);
            if i == 0 {
                assert(ext.len() == 1);
                assert(spec_render_groups(ext) == spec_render_group(gv[0]));
                assert(out@ == spec_render_groups(ext));
            } else {
                assert(spec_render_groups(ext) == spec_render_groups(pre) + "...\n"@
                    + spec_render_group(gv[i as int]));
            }
        }
        i += 1;
    }
    proof {
        assert(gv.subrange(0, n as int) =~= gv);
    }
    out
}

/// The new content with every line prefixed by a plus sign: the inserted
/// text of a change whose rendered diff came back empty.
pub open spec fn spec_plus_lines(s: Seq<char>) -> Seq<char>
    decreases s.len(),
{
    if s.len() == 0 {
        Seq::empty()
    } else {
        spec_plus_lines(s.drop_last()) + (if s.last() == '\n' {
            "\n+"@
        } else {
            seq![s.last()]
        })
    }
}

/// Prefix every line of `s` with a plus sign.
fn plus_lines(s: &str) -> (r: String)
    requires
        s@.len() < usize::MAX,
    ensures
        r@ == seq!['+'] + spec_plus_lines(s@),
{
    let mut out = String::from_str("+");
    let n = s.unicode_len();
    proof {
        reveal_strlit("+");
        assert(out@ =~= seq!['+'] + spec_plus_lines(s@.subrange(0, 0)));
    }
    let mut i: usize = 0;
    while i < n
        invariant
            n == s@.len(),
            0 <= i <= n,
            out@ == seq!['+'] + spec_plus_lines(s@.subrange(0, i as int)),
        decreases n - i,
    {
        let c = s.get_char(i);
        if c == '\n' {
            out.append("\n+");
            proof {
                reveal_strlit("\n+");
            }
        } else {
            let piece = s.substring_char(i, i + 1);
            out.append(piece);
            proof {
                assert(piece@ =~= seq![s@[i as int]]);
            }
        }
        proof {
            let cur = s@.subrange(0, i + 1);
            assert(cur.drop_last() =~= s@.subrange(0, i as int));
            assert(cur.last() == s@[i as int]);
        }
        i += 1;
    }
    proof {
        assert(s@.subrange(0, n as int) =~= s@);
    }
    out
}

/// The packaged diff text for a content change.
pub open spec fn spec_diff_text(old: Seq<char>, new: Seq<char>) -> Seq<char> {
    let rendered = spec_render_groups(line_groups_of(old, new, DIFF_CONTEXT_LINES as int));
    if rendered.len() == 0 && new.len() > 0 {
        seq!['+'] + spec_plus_lines(new)
    } else if rendered.len() == 0 {
        "No Content Changes"@
    } else {
        rendered
    }
}

/// Package the change from `old` to `new` as display text: the rendered
/// grouped diff, or the whole new text plus-prefixed when the diff came
/// back empty, or a fixed note when there is nothing to show.
pub fn package_diff(old: &str, new: &str) -> (r: String)
    requires
        new@.len() < usize::MAX,
    ensures
        r@ == spec_diff_text(old@, new@),
{
    let groups = line_diff_groups(old, new, DIFF_CONTEXT_LINES);
    let rendered = render_groups(&groups);
    if rendered.unicode_len() == 0 && !new.is_empty() {
        plus_lines(new)
    } else if rendered.unicode_len() == 0 {
        String::from_str("No Content Changes")
    } else {
        rendered
    }
}

/// The note packaged for a deletion, naming the file.
pub open spec fn spec_deletion_note(name: Seq<char>) -> Seq<char> {
    "File Deleted: "@ + name
}

/// The display text packaged when a tracked file is deleted.
pub fn deletion_note(name: &String) -> (r: String)
    ensures
        r@ == spec_deletion_note(name@),
{
    let mut out = String::from_str("File Deleted: ");
    out.append(name.as_str());
    out
}

} // verus!
