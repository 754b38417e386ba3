//! The one-shot ignore set: canonical paths whose next filesystem
//! notification must be swallowed because it will be the echo of this
//! program's own revert write.  An entry is consumed the moment it matches;
//! an entry that never matches simply stays until the path is armed again.

use vstd::prelude::*;

verus! {

/// True when no path appears twice.
pub open spec fn unique_paths(s: Seq<String>) -> bool {
    forall|i: int, j: int|
        0 <= i < s.len() && 0 <= j < s.len() && i != j ==> #[trigger] s[i]@ != #[trigger] s[j]@
}

/// The path list read as a mathematical set.
pub open spec fn paths_view(s: Seq<String>) -> Set<Seq<char>> {
    Set::new(|k: Seq<char>| exists|i: int| 0 <= i < s.len() && #[trigger] s[i]@ == k)
}

/// Set of canonical paths armed to swallow their next notification.
#[derive(Clone, Debug)]
pub struct IgnoreSet {
    pub paths: Vec<String>,
}

impl View for IgnoreSet {
    type V = Set<Seq<char>>;

    open spec fn view(&self) -> Set<Seq<char>> {
        paths_view(self.paths@)
    }
}

impl IgnoreSet {
    pub open spec fn wf(&self) -> bool {
        unique_paths(self.paths@)
    }

    pub fn new() -> (r: IgnoreSet)
        ensures
            r.wf(),
            r@ == Set::<Seq<char>>::empty(),
    {
        let r = IgnoreSet { paths: Vec::new() };
        proof {
            assert(r@ =~= Set::<Seq<char>>::empty());
        }
        r
    }

    /// True when the next notification for `k` is to be swallowed.
    pub fn contains(&self, k: &String) -> (r: bool)
        requires
            self.wf(),
        ensures
            r == self@.contains(k@),
    {
        let n = self.paths.len();
        let mut i: usize = 0;
        while i < n
            invariant
                n == self.paths.len(),
                0 <= i <= n,
                forall|j: int| 0 <= j < i ==> #[trigger] self.paths@[j]@ != k@,
            decreases n - i,
        {
            if self.paths[i] == *k {
                return true;
            }
            i += 1;
        }
        false
    }

    /// Arm the path: its next notification will be swallowed.
    pub fn arm(&mut self, k: String)
        requires
            old(self).wf(),
        ensures
            final(self).wf(),
            final(self)@ == old(self)@.insert(k@),
    {
        let n = self.paths.len();
        let mut i: usize = 0;
        while i < n
            invariant
                n == self.paths.len(),
                0 <= i <= n,
                *self == *old(self),
                self.wf(),
                forall|j: int| 0 <= j < i ==> #[trigger] self.paths@[j]@ != k@,
            decreases n - i,
        {
            if self.paths[i] == k {
                proof {
                    assert(self@.contains(k@));
                    assert(self@.insert(k@) =~= self@);
                }
                return ;
            }
            i += 1;
        }
        let ghost pre = self.paths@;
        self.paths.push(k);
        proof {
            let t = pre.push(k);
            assert forall|a: int, b: int|
                0 <= a < t.len() && 0 <= b < t.len() && a != b implies #[trigger] t[a]@
                != #[trigger] t[b]@ by {
                if a < pre.len() && b < pre.len() {
                    assert(t[a] == pre[a] && t[b] == pre[b]);
                }
            }
            assert forall|q: Seq<char>|
                paths_view(t).contains(q) == paths_view(pre).insert(k@).contains(q) by {
                if exists|j: int| 0 <= j < t.len() && #[trigger] t[j]@ == q {
                    let j = choose|j: int| 0 <= j < t.len() && #[trigger] t[j]@ == q;
                    if j < pre.len() {
                        assert(pre[j]@ == q);
                    } else {
                        assert(q == k@);
                    }
                }
                if exists|j: int| 0 <= j < pre.len() && #[trigger] pre[j]@ == q {
                    let j = choose|j: int| 0 <= j < pre.len() && #[trigger] pre[j]@ == q;
                    assert(t[j]@ == q);
                }
                if q == k@ {
                    assert(t[pre.len() as int]@ == q);
                }
            }
            assert(paths_view(t) =~= paths_view(pre).insert(k@));
        }
    }

    /// Disarm the path, used the moment an armed notification arrives.
    pub fn consume(&mut self, k: &String)
        requires
            old(self).wf(),
        ensures
            final(self).wf(),
            final(self)@ == old(self)@.remove(k@),
    {
        let n = self.paths.len();
        let mut i: usize = 0;
        while i < n
            invariant
                n == self.paths.len(),
                0 <= i <= n,
                *self == *old(self),
                self.wf(),
                forall|j: int| 0 <= j < i ==> #[trigger] self.paths@[j]@ != k@,
            decreases n - i,
        {
            if self.paths[i] == *k {
                let ghost pre = self.paths@;
                proof {
                    assert(pre[i as int]@ == k@);
                }
                self.paths.remove(i);
                proof {
                    lemma_paths_remove(pre, i as int);
                    assert(self.paths@ == pre.remove(i as int));
                }
                return ;
            }
            i += 1;
        }
        proof {
            assert(!self@.contains(k@));
            assert(self@.remove(k@) =~= self@);
        }
    }
}

/// Removing the element that holds a path is, on the view, a set remove.
proof fn lemma_paths_remove(s: Seq<String>, i: int)
    requires
        unique_paths(s),
        0 <= i < s.len(),
    ensures
        unique_paths(s.remove(i)),
        paths_view(s.remove(i)) == paths_view(s).remove(s[i]@),
{
    let t = s.remove(i);
    assert forall|a: int, b: int|
        0 <= a < t.len() && 0 <= b < t.len() && a != b implies #[trigger] t[a]@ != #[trigger] t[b]@ by {
        let a0 = if a < i { a } else { a + 1 };
        let b0 = if b < i { b } else { b + 1 };
        assert(t[a] == s[a0] && t[b] == s[b0]);
    }
    assert forall|q: Seq<char>|
        paths_view(t).contains(q) == paths_view(s).remove(s[i]@).contains(q) by {
        if exists|j: int| 0 <= j < t.len() && #[trigger] t[j]@ == q {
            let j = choose|j: int| 0 <= j < t.len() && #[trigger] t[j]@ == q;
            let j0 = if j < i { j } else { j + 1 };
            assert(s[j0]@ == q);
            assert(j0 != i);
        }
        if q != s[i]@ && (exists|j: int| 0 <= j < s.len() && #[trigger] s[j]@ == q) {
            let j = choose|j: int| 0 <= j < s.len() && #[trigger] s[j]@ == q;
            assert(j != i);
            let j1 = if j < i { j } else { j - 1 };
            assert(t[j1]@ == q);
        }
    }
    assert(paths_view(t) =~= paths_view(s).remove(s[i]@));
}

} // verus!
