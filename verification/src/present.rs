//! The computable side of presentation: totals shown in the status bar,
//! the symbol each change kind is listed with, and the classification of a
//! rendered diff line by its leading character.  Painting the results is
//! the caller's business.

use vstd::prelude::*;
use crate::types::ChangeKind;
use crate::types::FileChange;

verus! {

/// How many log entries carry the kind.
pub open spec fn spec_count_kind(s: Seq<FileChange>, k: ChangeKind) -> nat
    decreases s.len(),
{
    if s.len() == 0 {
        0
    } else {
        spec_count_kind(s.drop_last(), k) + if s.last().kind == k {
            1nat
        } else {
            0nat
        }
    }
}

/// A kind occurs no more often than the log is long.
proof fn lemma_count_kind_le_len(s: Seq<FileChange>, k: ChangeKind)
    ensures
        spec_count_kind(s, k) <= s.len(),
    decreases s.len(),
{
    if s.len() > 0 {
        lemma_count_kind_le_len(s.drop_last(), k);
    }
}

/// The log totals for the status bar: entries made for created, modified
/// and removed files, in that order.
pub fn change_counts(changes: &Vec<FileChange>) -> (r: (usize, usize, usize))
    ensures
        r.0 == spec_count_kind(changes@, ChangeKind::Create),
        r.1 == spec_count_kind(changes@, ChangeKind::Modify),
        r.2 == spec_count_kind(changes@, ChangeKind::Remove),
{
    let n = changes.len();
    let mut created: usize = 0;
    let mut modified: usize = 0;
    let mut removed: usize = 0;
    proof {
        assert(changes@.subrange(0, 0) =~= Seq::<FileChange>::empty());
    }
    let mut i: usize = 0;
    while i < n
        invariant
            n == changes@.len(),
            0 <= i <= n,
            created == spec_count_kind(changes@.subrange(0, i as int), ChangeKind::Create),
            modified == spec_count_kind(changes@.subrange(0, i as int), ChangeKind::Modify),
            removed == spec_count_kind(changes@.subrange(0, i as int), ChangeKind::Remove),
        decreases n - i,
    {
        proof {
            lemma_count_kind_le_len(changes@.subrange(0, i as int), ChangeKind::Create);
            lemma_count_kind_le_len(changes@.subrange(0, i as int), ChangeKind::Modify);
            lemma_count_kind_le_len(changes@.subrange(0, i as int), ChangeKind::Remove);
        }
        match changes[i].kind {
            ChangeKind::Create => created += 1,
            ChangeKind::Modify => modified += 1,
            ChangeKind::Remove => removed += 1,
        }
        proof {
            let cur = changes@.subrange(0, i + 1);
            assert(cur.drop_last() =~= changes@.subrange(0, i as int));
            assert(cur.last() == changes@[i as int]);
        }
        i += 1;
    }
    proof {
        assert(changes@.subrange(0, n as int) =~= changes@);
    }
    (created, modified, removed)
}

/// The letter a log entry is listed with in the sidebar.
pub open spec fn spec_kind_symbol(k: ChangeKind) -> Seq<char> {
    match k {
        ChangeKind::Create => "A"@,
        ChangeKind::Modify => "M"@,
        ChangeKind::Remove => "D"@,
    }
}

/// The sidebar letter for a change kind: added, modified, deleted.
pub fn kind_symbol(k: ChangeKind) -> (r: &'static str)
    ensures
        r@ == spec_kind_symbol(k),
{
    match k {
        ChangeKind::Create => "A",
        ChangeKind::Modify => "M",
        ChangeKind::Remove => "D",
    }
}

/// How a rendered diff line is colored.
#[derive(Clone, Copy, Debug, PartialEq, Eq, Structural)]
pub enum DiffLineClass {
    Added,
    Removed,
    Hunk,
    Context,
}

/// The class of a rendered diff line, by its leading character.
pub open spec fn spec_diff_line_class(line: Seq<char>) -> DiffLineClass {
    if line.len() > 0 && line[0] == '+' {
        DiffLineClass::Added
    } else if line.len() > 0 && line[0] == '-' {
        DiffLineClass::Removed
    } else if line.len() > 0 && line[0] == '@' {
        DiffLineClass::Hunk
    } else {
        DiffLineClass::Context
    }
}

/// Classify a rendered diff line for coloring.
pub fn diff_line_class(line: &str) -> (r: DiffLineClass)
    ensures
        r == spec_diff_line_class(line@),
{
    if line.is_empty() {
        return DiffLineClass::Context;
    }
    let c = line.get_char(0);
    if c == '+' {
        DiffLineClass::Added
    } else if c == '-' {
        DiffLineClass::Removed
    } else if c == '@' {
        DiffLineClass::Hunk
    } else {
        DiffLineClass::Context
    }
}

} // verus!
