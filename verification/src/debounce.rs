//! The debounce table: for each (display name, kind) pair, the instant at
//! which a notification was last allowed through.  A later notification for
//! the same pair within the debounce window is dropped; the table is a rate
//! limiter only, never a source of truth.

use vstd::prelude::*;
use crate::types::ChangeKind;

verus! {

/// Milliseconds that must separate two accepted notifications for the same
/// (name, kind) pair.
pub const DEBOUNCE_WINDOW_MS: u64 = 500;

/// One association of the debounce table.
#[derive(Clone, Debug)]
pub struct DebounceEntry {
    pub name: String,
    pub kind: ChangeKind,
    pub at: u64,
}

/// True when no two entries share a (name, kind) pair.
pub open spec fn unique_pairs(s: Seq<DebounceEntry>) -> bool {
    forall|i: int, j: int|
        0 <= i < s.len() && 0 <= j < s.len() && i != j ==> !(#[trigger] s[i].name@
            == #[trigger] s[j].name@ && s[i].kind == s[j].kind)
}

/// Index of the entry holding the pair, if any.
pub open spec fn pair_index(s: Seq<DebounceEntry>, p: (Seq<char>, ChangeKind)) -> int {
    choose|i: int| 0 <= i < s.len() && s[i].name@ == p.0 && s[i].kind == p.1
}

/// The association list read as a mathematical map.
pub open spec fn pairs_view(s: Seq<DebounceEntry>) -> Map<(Seq<char>, ChangeKind), u64> {
    Map::new(
        |p: (Seq<char>, ChangeKind)|
            exists|i: int| 0 <= i < s.len() && #[trigger] s[i].name@ == p.0 && s[i].kind == p.1,
        |p: (Seq<char>, ChangeKind)| s[pair_index(s, p)].at,
    )
}

/// Mapping from (display name, kind) to the last instant the pair passed.
#[derive(Clone, Debug)]
pub struct DebounceTable {
    pub entries: Vec<DebounceEntry>,
}

impl View for DebounceTable {
    type V = Map<(Seq<char>, ChangeKind), u64>;

    open spec fn view(&self) -> Map<(Seq<char>, ChangeKind), u64> {
        pairs_view(self.entries@)
    }
}

/// True when a notification for the pair at `now_ms` falls inside the
/// debounce window of the recorded instant and must be dropped.
pub open spec fn spec_debounced(
    m: Map<(Seq<char>, ChangeKind), u64>,
    name: Seq<char>,
    kind: ChangeKind,
    now_ms: u64,
) -> bool {
    m.contains_key((name, kind)) && m[(name, kind)] <= now_ms < m[(name, kind)]
        + DEBOUNCE_WINDOW_MS
}

impl DebounceTable {
    pub open spec fn wf(&self) -> bool {
        unique_pairs(self.entries@)
    }

    pub fn new() -> (r: DebounceTable)
        ensures
            r.wf(),
            r@ == Map::<(Seq<char>, ChangeKind), u64>::empty(),
    {
        let r = DebounceTable { entries: Vec::new() };
        proof {
            assert(r@ =~= Map::<(Seq<char>, ChangeKind), u64>::empty());
        }
        r
    }

    /// Decide whether a notification for (name, kind) arriving at `now_ms`
    /// is inside the debounce window.
    pub fn is_debounced(&self, name: &String, kind: ChangeKind, now_ms: u64) -> (r: bool)
        requires
            self.wf(),
        ensures
            r == spec_debounced(self@, name@, kind, now_ms),
    {
        let n = self.entries.len();
        let mut i: usize = 0;
        while i < n
            invariant
                n == self.entries.len(),
                0 <= i <= n,
                self.wf(),
                forall|j: int|
                    0 <= j < i ==> !(#[trigger] self.entries@[j].name@ == name@
                        && self.entries@[j].kind == kind),
            decreases n - i,
        {
            let e = &self.entries[i];
            if e.name == *name && e.kind == kind {
                proof {
                    lemma_pairs_get(self.entries@, i as int);
                }
                return e.at <= now_ms && now_ms - e.at < DEBOUNCE_WINDOW_MS;
            }
            i += 1;
        }
        proof {
            assert(!self@.contains_key((name@, kind)));
        }
        false
    }

    /// Record that the pair passed at `now_ms`, replacing any prior instant.
    pub fn record(&mut self, name: String, kind: ChangeKind, now_ms: u64)
        requires
            old(self).wf(),
        ensures
            final(self).wf(),
            final(self)@ == old(self)@.insert((name@, kind), now_ms),
    {
        let n = self.entries.len();
        let mut i: usize = 0;
        while i < n
            invariant
                n == self.entries.len(),
                0 <= i <= n,
                *self == *old(self),
                self.wf(),
                forall|j: int|
                    0 <= j < i ==> !(#[trigger] self.entries@[j].name@ == name@
                        && self.entries@[j].kind == kind),
            decreases n - i,
        {
            let matches_here = self.entries[i].name == name && self.entries[i].kind == kind;
            if matches_here {
                let ghost pre = self.entries@;
                let e = DebounceEntry { name, kind, at: now_ms };
                self.entries.set(i, e);
                proof {
                    lemma_pairs_update(pre, i as int, self.entries@[i as int]);
                }
                return ;
            }
            i += 1;
        }
        let ghost pre = self.entries@;
        let e = DebounceEntry { name, kind, at: now_ms };
        let ghost ge = e;
        self.entries.push(e);
        proof {
            lemma_pairs_push(pre, ge);
            assert(self.entries@ == pre.push(ge));
        }
    }
}

/// With unique pairs, the entry at `i` gives the map's value at its pair.
proof fn lemma_pairs_get(s: Seq<DebounceEntry>, i: int)
    requires
        unique_pairs(s),
        0 <= i < s.len(),
    ensures
        pairs_view(s).contains_key((s[i].name@, s[i].kind)),
        pairs_view(s)[(s[i].name@, s[i].kind)] == s[i].at,
{
    let p = (s[i].name@, s[i].kind);
    assert(s[i].name@ == p.0 && s[i].kind == p.1);
    assert(pairs_view(s).contains_key(p));
    let j = pair_index(s, p);
    assert(0 <= j < s.len() && s[j].name@ == p.0 && s[j].kind == p.1);
    assert(j == i);
}

/// Overwriting the entry that holds a pair is, on the view, a map insert.
proof fn lemma_pairs_update(s: Seq<DebounceEntry>, i: int, e: DebounceEntry)
    requires
        unique_pairs(s),
        0 <= i < s.len(),
        s[i].name@ == e.name@,
        s[i].kind == e.kind,
    ensures
        unique_pairs(s.update(i, e)),
        pairs_view(s.update(i, e)) == pairs_view(s).insert((e.name@, e.kind), e.at),
{
    let t = s.update(i, e);
    let ep = (e.name@, e.kind);
    assert forall|a: int, b: int|
        0 <= a < t.len() && 0 <= b < t.len() && a != b implies !(#[trigger] t[a].name@
        == #[trigger] t[b].name@ && t[a].kind == t[b].kind) by {
        assert(t[a].name@ == s[a].name@ && t[a].kind == s[a].kind);
        assert(t[b].name@ == s[b].name@ && t[b].kind == s[b].kind);
    }
    assert forall|p: (Seq<char>, ChangeKind)|
        pairs_view(t).contains_key(p) == pairs_view(s).insert(ep, e.at).contains_key(p) by {
        if exists|j: int| 0 <= j < t.len() && #[trigger] t[j].name@ == p.0 && t[j].kind == p.1 {
            let j = choose|j: int|
                0 <= j < t.len() && #[trigger] t[j].name@ == p.0 && t[j].kind == p.1;
            if j == i {
                assert(p == ep);
            } else {
                assert(s[j].name@ == p.0 && s[j].kind == p.1);
            }
        }
        if exists|j: int| 0 <= j < s.len() && #[trigger] s[j].name@ == p.0 && s[j].kind == p.1 {
            let j = choose|j: int|
                0 <= j < s.len() && #[trigger] s[j].name@ == p.0 && s[j].kind == p.1;
            if j != i {
                assert(t[j].name@ == p.0 && t[j].kind == p.1);
            }
        }
        if p == ep {
            assert(t[i].name@ == p.0 && t[i].kind == p.1);
        }
    }
    assert forall|p: (Seq<char>, ChangeKind)| #[trigger]
        pairs_view(t).contains_key(p) implies pairs_view(t)[p] == pairs_view(s).insert(
        ep,
        e.at,
    )[p] by {
        let j = pair_index(t, p);
        assert(0 <= j < t.len() && t[j].name@ == p.0 && t[j].kind == p.1);
        if p == ep {
            assert(j == i);
        } else {
            assert(j != i);
            assert(t[j] == s[j]);
            let j2 = pair_index(s, p);
            assert(0 <= j2 < s.len() && s[j2].name@ == p.0 && s[j2].kind == p.1);
            assert(j2 == j);
        }
    }
    assert(pairs_view(t) =~= pairs_view(s).insert(ep, e.at));
}

/// Appending an entry with a fresh pair is, on the view, a map insert.
proof fn lemma_pairs_push(s: Seq<DebounceEntry>, e: DebounceEntry)
    requires
        unique_pairs(s),
        forall|j: int| 0 <= j < s.len() ==> !(#[trigger] s[j].name@ == e.name@ && s[j].kind == e.kind),
    ensures
        unique_pairs(s.push(e)),
        pairs_view(s.push(e)) == pairs_view(s).insert((e.name@, e.kind), e.at),
{
    let t = s.push(e);
    let ep = (e.name@, e.kind);
    assert forall|a: int, b: int|
        0 <= a < t.len() && 0 <= b < t.len() && a != b implies !(#[trigger] t[a].name@
        == #[trigger] t[b].name@ && t[a].kind == t[b].kind) by {
        if a < s.len() && b < s.len() {
            assert(t[a] == s[a] && t[b] == s[b]);
        }
    }
    assert forall|p: (Seq<char>, ChangeKind)|
        pairs_view(t).contains_key(p) == pairs_view(s).insert(ep, e.at).contains_key(p) by {
        if exists|j: int| 0 <= j < t.len() && #[trigger] t[j].name@ == p.0 && t[j].kind == p.1 {
            let j = choose|j: int|
                0 <= j < t.len() && #[trigger] t[j].name@ == p.0 && t[j].kind == p.1;
            if j < s.len() {
                assert(s[j].name@ == p.0 && s[j].kind == p.1);
            } else {
                assert(p == ep);
            }
        }
        if exists|j: int| 0 <= j < s.len() && #[trigger] s[j].name@ == p.0 && s[j].kind == p.1 {
            let j = choose|j: int|
                0 <= j < s.len() && #[trigger] s[j].name@ == p.0 && s[j].kind == p.1;
            assert(t[j].name@ == p.0 && t[j].kind == p.1);
        }
        if p == ep {
            assert(t[s.len() as int].name@ == p.0 && t[s.len() as int].kind == p.1);
        }
    }
    assert forall|p: (Seq<char>, ChangeKind)| #[trigger]
        pairs_view(t).contains_key(p) implies pairs_view(t)[p] == pairs_view(s).insert(
        ep,
        e.at,
    )[p] by {
        let j = pair_index(t, p);
        assert(0 <= j < t.len() && t[j].name@ == p.0 && t[j].kind == p.1);
        if p == ep {
            assert(j == s.len());
        } else {
            assert(j < s.len());
            assert(t[j] == s[j]);
            let j2 = pair_index(s, p);
            assert(s[j2] == t[j2]);
            assert(j2 == j);
        }
    }
    assert(pairs_view(t) =~= pairs_view(s).insert(ep, e.at));
}

} // verus!
