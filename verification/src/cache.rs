//! The snapshot cache: a mapping from canonical path to the last-approved
//! content of that file.  Stored as an association list with unique keys so
//! that every operation is proved against a mathematical `Map` view.

use vstd::prelude::*;

verus! {

/// One association of the snapshot cache.
#[derive(Clone, Debug)]
pub struct CacheEntry {
    pub key: String,
    pub val: String,
}

/// True when no two entries share a key.
pub open spec fn unique_keys(s: Seq<CacheEntry>) -> bool {
    forall|i: int, j: int|
        0 <= i < s.len() && 0 <= j < s.len() && i != j ==> #[trigger] s[i].key@ != #[trigger] s[j].key@
}

/// Index of the entry holding `k`, if any.
pub open spec fn key_index(s: Seq<CacheEntry>, k: Seq<char>) -> int {
    choose|i: int| 0 <= i < s.len() && s[i].key@ == k
}

/// The association list read as a mathematical map.
pub open spec fn assoc_view(s: Seq<CacheEntry>) -> Map<Seq<char>, Seq<char>> {
    Map::new(
        |k: Seq<char>| exists|i: int| 0 <= i < s.len() && #[trigger] s[i].key@ == k,
        |k: Seq<char>| s[key_index(s, k)].val@,
    )
}

/// Mapping from canonical path to last-approved file content.
#[derive(Clone, Debug)]
pub struct SnapshotCache {
    pub entries: Vec<CacheEntry>,
}

impl View for SnapshotCache {
    type V = Map<Seq<char>, Seq<char>>;

    open spec fn view(&self) -> Map<Seq<char>, Seq<char>> {
        assoc_view(self.entries@)
    }
}

impl SnapshotCache {
    pub open spec fn wf(&self) -> bool {
        unique_keys(self.entries@)
    }

    pub fn new() -> (r: SnapshotCache)
        ensures
            r.wf(),
            r@ == Map::<Seq<char>, Seq<char>>::empty(),
    {
        let r = SnapshotCache { entries: Vec::new() };
        proof {
            assert(r@ =~= Map::<Seq<char>, Seq<char>>::empty());
        }
        r
    }

    /// The cached content for `k`, if the path is known.
    pub fn get(&self, k: &String) -> (r: Option<&String>)
        requires
            self.wf(),
        ensures
            r is Some <==> self@.contains_key(k@),
            r matches Some(v) ==> v@ == self@[k@],
    {
        let n = self.entries.len();
        let mut i: usize = 0;
        while i < n
            invariant
                n == self.entries.len(),
                0 <= i <= n,
                self.wf(),
                forall|j: int| 0 <= j < i ==> #[trigger] self.entries@[j].key@ != k@,
            decreases n - i,
        {
            if self.entries[i].key == *k {
                proof {
                    lemma_assoc_get(self.entries@, i as int);
                }
                return Some(&self.entries[i].val);
            }
            i += 1;
        }
        proof {
            assert(!self@.contains_key(k@));
        }
        None
    }

    /// Record `v` as the approved content of `k`, replacing any prior entry.
    pub fn insert(&mut self, k: String, v: String)
        requires
            old(self).wf(),
        ensures
            final(self).wf(),
            final(self)@ == old(self)@.insert(k@, v@),
    {
        let n = self.entries.len();
        let mut i: usize = 0;
        while i < n
            invariant
                n == self.entries.len(),
                0 <= i <= n,
                *self == *old(self),
                self.wf(),
                forall|j: int| 0 <= j < i ==> #[trigger] self.entries@[j].key@ != k@,
            decreases n - i,
        {
            if self.entries[i].key == k {
                let ghost pre = self.entries@;
                let e = CacheEntry { key: k, val: v };
                self.entries.set(i, e);
                proof {
                    lemma_assoc_update(pre, i as int, self.entries@[i as int]);
                }
                return ;
            }
            i += 1;
        }
        let ghost pre = self.entries@;
        let e = CacheEntry { key: k, val: v };
        let ghost ge = e;
        self.entries.push(e);
        proof {
            lemma_assoc_push(pre, ge);
            assert(self.entries@ == pre.push(ge));
        }
    }

    /// Forget the path entirely, as when an accepted change was a deletion.
    pub fn remove(&mut self, k: &String)
        requires
            old(self).wf(),
        ensures
            final(self).wf(),
            final(self)@ == old(self)@.remove(k@),
    {
        let n = self.entries.len();
        let mut i: usize = 0;
        while i < n
            invariant
                n == self.entries.len(),
                0 <= i <= n,
                *self == *old(self),
                self.wf(),
                forall|j: int| 0 <= j < i ==> #[trigger] self.entries@[j].key@ != k@,
            decreases n - i,
        {
            if self.entries[i].key == *k {
                let ghost pre = self.entries@;
                proof {
                    assert(pre[i as int].key@ == k@);
                }
                self.entries.remove(i);
                proof {
                    lemma_assoc_remove(pre, i as int);
                    assert(self.entries@ == pre.remove(i as int));
                }
                return ;
            }
            i += 1;
        }
        proof {
            assert(!self@.contains_key(k@));
            assert(self@.remove(k@) =~= self@);
        }
    }
}

/// With unique keys, the entry at `i` gives the map's value at its key.
proof fn lemma_assoc_get(s: Seq<CacheEntry>, i: int)
    requires
        unique_keys(s),
        0 <= i < s.len(),
    ensures
        assoc_view(s).contains_key(s[i].key@),
        assoc_view(s)[s[i].key@] == s[i].val@,
{
    let k = s[i].key@;
    assert(assoc_view(s).contains_key(k));
    let j = key_index(s, k);
    assert(0 <= j < s.len() && s[j].key@ == k);
    assert(j == i);
}

/// Overwriting the entry that holds a key is, on the view, a map insert.
proof fn lemma_assoc_update(s: Seq<CacheEntry>, i: int, e: CacheEntry)
    requires
        unique_keys(s),
        0 <= i < s.len(),
        s[i].key@ == e.key@,
    ensures
        unique_keys(s.update(i, e)),
        assoc_view(s.update(i, e)) == assoc_view(s).insert(e.key@, e.val@),
{
    let t = s.update(i, e);
    assert forall|a: int, b: int|
        0 <= a < t.len() && 0 <= b < t.len() && a != b implies #[trigger] t[a].key@ != #[trigger] t[b].key@ by {
        assert(t[a].key@ == s[a].key@ && t[b].key@ == s[b].key@);
    }
    assert forall|k: Seq<char>|
        assoc_view(t).contains_key(k) == assoc_view(s).insert(e.key@, e.val@).contains_key(
            k,
        ) by {
        if exists|j: int| 0 <= j < t.len() && #[trigger] t[j].key@ == k {
            let j = choose|j: int| 0 <= j < t.len() && #[trigger] t[j].key@ == k;
            if j == i {
                assert(k == e.key@);
            } else {
                assert(s[j].key@ == k);
            }
        }
        if exists|j: int| 0 <= j < s.len() && #[trigger] s[j].key@ == k {
            let j = choose|j: int| 0 <= j < s.len() && #[trigger] s[j].key@ == k;
            if j != i {
                assert(t[j].key@ == k);
            }
        }
        if k == e.key@ {
            assert(t[i].key@ == k);
        }
    }
    assert forall|k: Seq<char>| #[trigger]
        assoc_view(t).contains_key(k) implies assoc_view(t)[k] == assoc_view(s).insert(
        e.key@,
        e.val@,
    )[k] by {
        let j = key_index(t, k);
        assert(0 <= j < t.len() && t[j].key@ == k);
        if k == e.key@ {
            assert(j == i);
        } else {
            assert(j != i);
            assert(t[j] == s[j]);
            let j2 = key_index(s, k);
            assert(0 <= j2 < s.len() && s[j2].key@ == k);
            assert(j2 == j);
        }
    }
    assert(assoc_view(t) =~= assoc_view(s).insert(e.key@, e.val@));
}

/// Appending an entry with a fresh key is, on the view, a map insert.
proof fn lemma_assoc_push(s: Seq<CacheEntry>, e: CacheEntry)
    requires
        unique_keys(s),
        forall|j: int| 0 <= j < s.len() ==> #[trigger] s[j].key@ != e.key@,
    ensures
        unique_keys(s.push(e)),
        assoc_view(s.push(e)) == assoc_view(s).insert(e.key@, e.val@),
{
    let t = s.push(e);
    assert forall|a: int, b: int|
        0 <= a < t.len() && 0 <= b < t.len() && a != b implies #[trigger] t[a].key@ != #[trigger] t[b].key@ by {
        if a < s.len() && b < s.len() {
            assert(t[a] == s[a] && t[b] == s[b]);
        }
    }
    assert forall|k: Seq<char>|
        assoc_view(t).contains_key(k) == assoc_view(s).insert(e.key@, e.val@).contains_key(
            k,
        ) by {
        if exists|j: int| 0 <= j < t.len() && #[trigger] t[j].key@ == k {
            let j = choose|j: int| 0 <= j < t.len() && #[trigger] t[j].key@ == k;
            if j < s.len() {
                assert(s[j].key@ == k);
            } else {
                assert(k == e.key@);
            }
        }
        if exists|j: int| 0 <= j < s.len() && #[trigger] s[j].key@ == k {
            let j = choose|j: int| 0 <= j < s.len() && #[trigger] s[j].key@ == k;
            assert(t[j].key@ == k);
        }
        if k == e.key@ {
            assert(t[s.len() as int].key@ == k);
        }
    }
    assert forall|k: Seq<char>| #[trigger]
        assoc_view(t).contains_key(k) implies assoc_view(t)[k] == assoc_view(s).insert(
        e.key@,
        e.val@,
    )[k] by {
        let j = key_index(t, k);
        assert(0 <= j < t.len() && t[j].key@ == k);
        if k == e.key@ {
            assert(j == s.len());
        } else {
            assert(j < s.len());
            assert(t[j] == s[j]);
            let j2 = key_index(s, k);
            assert(s[j2] == t[j2]);
            assert(j2 == j);
        }
    }
    assert(assoc_view(t) =~= assoc_view(s).insert(e.key@, e.val@));
}

/// Removing the entry that holds a key is, on the view, a map remove.
proof fn lemma_assoc_remove(s: Seq<CacheEntry>, i: int)
    requires
        unique_keys(s),
        0 <= i < s.len(),
    ensures
        unique_keys(s.remove(i)),
        assoc_view(s.remove(i)) == assoc_view(s).remove(s[i].key@),
{
    let t = s.remove(i);
    assert forall|a: int, b: int|
        0 <= a < t.len() && 0 <= b < t.len() && a != b implies #[trigger] t[a].key@ != #[trigger] t[b].key@ by {
        let a0 = if a < i { a } else { a + 1 };
        let b0 = if b < i { b } else { b + 1 };
        assert(t[a] == s[a0] && t[b] == s[b0]);
    }
    assert forall|k: Seq<char>|
        assoc_view(t).contains_key(k) == assoc_view(s).remove(s[i].key@).contains_key(k) by {
        if exists|j: int| 0 <= j < t.len() && #[trigger] t[j].key@ == k {
            let j = choose|j: int| 0 <= j < t.len() && #[trigger] t[j].key@ == k;
            let j0 = if j < i { j } else { j + 1 };
            assert(s[j0].key@ == k);
            assert(j0 != i);
        }
        if k != s[i].key@ && (exists|j: int| 0 <= j < s.len() && #[trigger] s[j].key@ == k) {
            let j = choose|j: int| 0 <= j < s.len() && #[trigger] s[j].key@ == k;
            assert(j != i);
            let j1 = if j < i { j } else { j - 1 };
            assert(t[j1].key@ == k);
        }
    }
    assert forall|k: Seq<char>| #[trigger]
        assoc_view(t).contains_key(k) implies assoc_view(t)[k] == assoc_view(s).remove(
        s[i].key@,
    )[k] by {
        let j = key_index(t, k);
        assert(0 <= j < t.len() && t[j].key@ == k);
        let j0 = if j < i { j } else { j + 1 };
        assert(t[j] == s[j0]);
        let j2 = key_index(s, k);
        assert(0 <= j2 < s.len() && s[j2].key@ == k);
        assert(j2 == j0);
    }
    assert(assoc_view(t) =~= assoc_view(s).remove(s[i].key@));
}

} // verus!
