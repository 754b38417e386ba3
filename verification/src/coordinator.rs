//! The event-coordination state: everything a notification or a decision
//! may touch, owned by one value and mutated only through the operations
//! here.  A raw notification runs the filter stages (one-shot ignore, noise,
//! debounce), is resolved against the snapshot cache into a pending change
//! or a no-op, and joins the approval queue; a decision pops the queue head
//! and either promotes its content into the cache or asks for a revert.

use vstd::prelude::*;
use crate::cache::SnapshotCache;
use crate::debounce::DebounceTable;
use crate::debounce::spec_debounced;
use crate::diff::package_diff;
use crate::diff::deletion_note;
use crate::diff::spec_diff_text;
use crate::diff::spec_deletion_note;
use crate::ignore::IgnoreSet;
use crate::paths::base_name;
use crate::paths::is_hidden_name;
use crate::paths::is_noise_path;
use crate::paths::spec_base_name;
use crate::paths::spec_is_hidden_name;
use crate::paths::spec_is_noise_path;
use crate::types::ChangeKind;
use crate::types::FileChange;
use crate::types::PendingChange;
use crate::types::RevertAction;

verus! {

/// Entries kept in the display log before the oldest is evicted.
pub const LOG_CAPACITY: usize = 50;

/// One file found by the caller's startup scan of the working tree.
#[derive(Clone, Debug)]
pub struct ScanEntry {
    /// The path as walked, used for the noise filter.
    pub raw_path: String,
    /// The resolved path, used as the cache key.
    pub canon_path: String,
    /// The file's content.
    pub content: String,
}

/// The shared state of the merge loop.
#[derive(Debug)]
pub struct AppState {
    /// Newest-first display log, at most `LOG_CAPACITY` entries.
    pub file_changes: Vec<FileChange>,
    /// Last instant each (name, kind) pair passed the filter.
    pub debounce_map: DebounceTable,
    /// The log entry under the cursor, if any.
    pub selected: Option<usize>,
    pub show_sidebar: bool,
    /// Canonical path to last-approved content.
    pub file_cache: SnapshotCache,
    /// Changes awaiting a decision, head first.
    pub approval_queue: Vec<PendingChange>,
    /// Canonical paths whose next notification is this program's own echo.
    pub ignore_next_write: IgnoreSet,
    /// True exactly while a decision is outstanding.
    pub modal_active: bool,
    pub show_diff_view: bool,
}

impl AppState {
    /// The internal invariant every operation preserves.
    pub open spec fn wf(&self) -> bool {
        &&& self.file_cache.wf()
        &&& self.debounce_map.wf()
        &&& self.ignore_next_write.wf()
        &&& self.file_changes@.len() <= LOG_CAPACITY
        &&& (self.modal_active <==> self.approval_queue@.len() > 0)
        &&& (self.selected matches Some(i) ==> i < LOG_CAPACITY)
    }

    /// The content the cache holds for a path, or empty when unknown.
    pub open spec fn spec_cached(&self, canon: Seq<char>) -> Seq<char> {
        if self.file_cache@.contains_key(canon) {
            self.file_cache@[canon]
        } else {
            Seq::empty()
        }
    }
}

/// The cache contents seeded by a scan: every entry in order, except those
/// under noise directories; a later entry for a path wins.  The scan
/// excludes the same directory names as the notification filter.
pub open spec fn spec_seed_cache(scan: Seq<ScanEntry>) -> Map<Seq<char>, Seq<char>>
    decreases scan.len(),
{
    if scan.len() == 0 {
        Map::empty()
    } else {
        let prev = spec_seed_cache(scan.drop_last());
        let e = scan.last();
        if spec_is_noise_path(e.raw_path@) {
            prev
        } else {
            prev.insert(e.canon_path@, e.content@)
        }
    }
}

/// All fields that the filter stages may not touch are unchanged.
pub open spec fn spec_filter_frame(pre: AppState, post: AppState) -> bool {
    &&& post.file_changes == pre.file_changes
    &&& post.selected == pre.selected
    &&& post.show_sidebar == pre.show_sidebar
    &&& post.file_cache == pre.file_cache
    &&& post.approval_queue == pre.approval_queue
    &&& post.modal_active == pre.modal_active
    &&& post.show_diff_view == pre.show_diff_view
}

/// The display fields a notification may not touch are unchanged.
pub open spec fn spec_display_frame(pre: AppState, post: AppState) -> bool {
    &&& post.show_sidebar == pre.show_sidebar
    &&& post.show_diff_view == pre.show_diff_view
}

/// `post` is `pre`'s log with one entry put in front, the oldest entry
/// evicted first when the log was full.
pub open spec fn spec_log_extended(
    pre: Seq<FileChange>,
    post: Seq<FileChange>,
    name: Seq<char>,
    kind: ChangeKind,
    at: u64,
    diff: Option<Seq<char>>,
) -> bool {
    let trimmed = if pre.len() >= LOG_CAPACITY {
        pre.drop_last()
    } else {
        pre
    };
    &&& post.len() == trimmed.len() + 1
    &&& post[0].path@ == name
    &&& post[0].kind == kind
    &&& post[0].timestamp == at
    &&& match diff {
        Some(d) => post[0].diff matches Some(s) && s@ == d,
        None => post[0].diff is None,
    }
    &&& forall|i: int| 0 <= i < trimmed.len() ==> post[i + 1] == trimmed[i]
}

/// `post` is `pre`'s queue with one pending change of these parts at the
/// tail.
pub open spec fn spec_queue_pushed(
    pre: Seq<PendingChange>,
    post: Seq<PendingChange>,
    path: Seq<char>,
    old_c: Seq<char>,
    new_c: Seq<char>,
    diff: Seq<char>,
) -> bool {
    &&& post.len() == pre.len() + 1
    &&& forall|i: int| 0 <= i < pre.len() ==> post[i] == pre[i]
    &&& post[pre.len() as int].path@ == path
    &&& post[pre.len() as int].old_content@ == old_c
    &&& post[pre.len() as int].new_content@ == new_c
    &&& post[pre.len() as int].diff_text@ == diff
}

/// The whole effect of one notification on the state, stage by stage:
/// the one-shot ignore, the noise filter, the debounce, and the resolution
/// against the cache into a pending change, a log-only entry, or a no-op.
pub open spec fn spec_add_change(
    pre: AppState,
    post: AppState,
    raw: Seq<char>,
    canon: Seq<char>,
    kind: ChangeKind,
    now: u64,
    disk: Option<Seq<char>>,
) -> bool {
    let name = spec_base_name(raw);
    if pre.ignore_next_write@.contains(canon) {
        // the armed echo of this program's own revert write is swallowed
        &&& spec_filter_frame(pre, post)
        &&& post.debounce_map == pre.debounce_map
        &&& post.ignore_next_write@ == pre.ignore_next_write@.remove(canon)
    } else if spec_is_noise_path(raw) || spec_is_hidden_name(name) {
        post == pre
    } else if spec_debounced(pre.debounce_map@, name, kind, now) {
        post == pre
    } else {
        &&& post.ignore_next_write == pre.ignore_next_write
        &&& post.debounce_map@ == pre.debounce_map@.insert((name, kind), now)
        &&& spec_display_frame(pre, post)
        &&& {
            let old_c = pre.spec_cached(canon);
            match kind {
                ChangeKind::Remove => {
                    if old_c.len() == 0 {
                        // nothing tracked to delete: log only
                        &&& post.file_cache == pre.file_cache
                        &&& post.approval_queue == pre.approval_queue
                        &&& post.modal_active == pre.modal_active
                        &&& spec_log_extended(
                            pre.file_changes@,
                            post.file_changes@,
                            name,
                            kind,
                            now,
                            None,
                        )
                        &&& post.selected == Some(0usize)
                    } else {
                        &&& post.file_cache == pre.file_cache
                        &&& spec_queue_pushed(
                            pre.approval_queue@,
                            post.approval_queue@,
                            canon,
                            old_c,
                            Seq::empty(),
                            spec_deletion_note(name),
                        )
                        &&& post.modal_active
                        &&& spec_log_extended(
                            pre.file_changes@,
                            post.file_changes@,
                            name,
                            kind,
                            now,
                            Some(spec_deletion_note(name)),
                        )
                        &&& post.selected == Some(0usize)
                    }
                },
                _ => {
                    match disk {
                        None => {
                            // the content could not be read: log only
                            &&& post.file_cache == pre.file_cache
                            &&& post.approval_queue == pre.approval_queue
                            &&& post.modal_active == pre.modal_active
                            &&& spec_log_extended(
                                pre.file_changes@,
                                post.file_changes@,
                                name,
                                kind,
                                now,
                                None,
                            )
                            &&& post.selected == Some(0usize)
                        },
                        Some(c) => {
                            if c == old_c {
                                // the write left the effective content alone
                                &&& post.file_cache == pre.file_cache
                                &&& post.approval_queue == pre.approval_queue
                                &&& post.modal_active == pre.modal_active
                                &&& post.file_changes == pre.file_changes
                                &&& post.selected == pre.selected
                            } else {
                                &&& post.file_cache == pre.file_cache
                                &&& spec_queue_pushed(
                                    pre.approval_queue@,
                                    post.approval_queue@,
                                    canon,
                                    old_c,
                                    c,
                                    spec_diff_text(old_c, c),
                                )
                                &&& post.modal_active
                                &&& spec_log_extended(
                                    pre.file_changes@,
                                    post.file_changes@,
                                    name,
                                    kind,
                                    now,
                                    Some(spec_diff_text(old_c, c)),
                                )
                                &&& post.selected == Some(0usize)
                            }
                        },
                    }
                },
            }
        }
    }
}

/// The whole effect of accepting the queue head: the head leaves the
/// queue and its new content becomes the approved content (or, for a
/// deletion, the path leaves the cache).  Nothing is written to disk.
pub open spec fn spec_accept(pre: AppState, post: AppState) -> bool {
    if pre.approval_queue@.len() == 0 {
        post == pre
    } else {
        let head = pre.approval_queue@[0];
        &&& post.approval_queue@ == pre.approval_queue@.drop_first()
        &&& if head.new_content@.len() == 0 {
            post.file_cache@ == pre.file_cache@.remove(head.path@)
        } else {
            post.file_cache@ == pre.file_cache@.insert(head.path@, head.new_content@)
        }
        &&& post.modal_active == (pre.approval_queue@.len() > 1)
        &&& post.ignore_next_write == pre.ignore_next_write
        &&& post.debounce_map == pre.debounce_map
        &&& post.file_changes == pre.file_changes
        &&& post.selected == pre.selected
        &&& post.show_sidebar == pre.show_sidebar
        &&& post.show_diff_view == pre.show_diff_view
    }
}

/// The whole effect of rejecting the queue head: the head leaves the
/// queue, its path is armed in the one-shot ignore set, the cache is left
/// alone, and the returned action says what to put back on disk.
pub open spec fn spec_reject(pre: AppState, post: AppState, r: Option<RevertAction>) -> bool {
    if pre.approval_queue@.len() == 0 {
        post == pre && r is None
    } else {
        let head = pre.approval_queue@[0];
        &&& post.approval_queue@ == pre.approval_queue@.drop_first()
        &&& post.ignore_next_write@ == pre.ignore_next_write@.insert(head.path@)
        &&& post.file_cache == pre.file_cache
        &&& post.modal_active == (pre.approval_queue@.len() > 1)
        &&& post.debounce_map == pre.debounce_map
        &&& post.file_changes == pre.file_changes
        &&& post.selected == pre.selected
        &&& post.show_sidebar == pre.show_sidebar
        &&& post.show_diff_view == pre.show_diff_view
        &&& if head.old_content@.len() == 0 {
            r matches Some(RevertAction::Delete { path }) && path@ == head.path@
        } else {
            r matches Some(RevertAction::Restore { path, content }) && path@ == head.path@
                && content@ == head.old_content@
        }
    }
}

impl AppState {
    /// Build the state over a completed startup scan: the cache holds the
    /// content of every scanned file outside the noise directories, and
    /// everything else starts empty.
    pub fn new(scan: Vec<ScanEntry>) -> (r: AppState)
        requires
            forall|i: int| 0 <= i < scan@.len() ==> #[trigger] scan@[i].raw_path@.len() < usize::MAX,
        ensures
            r.wf(),
            r.file_cache@ == spec_seed_cache(scan@),
            r.file_changes@.len() == 0,
            r.debounce_map@ == Map::<(Seq<char>, ChangeKind), u64>::empty(),
            r.approval_queue@.len() == 0,
            r.ignore_next_write@ == Set::<Seq<char>>::empty(),
            !r.modal_active,
            r.show_sidebar,
            !r.show_diff_view,
            r.selected is None,
    {
        let mut cache = SnapshotCache::new();
        let n = scan.len();
        proof {
            assert(scan@.subrange(0, 0) =~= Seq::<ScanEntry>::empty());
        }
        let mut i: usize = 0;
        while i < n
            invariant
                n == scan@.len(),
                0 <= i <= n,
                forall|j: int| 0 <= j < n ==> #[trigger] scan@[j].raw_path@.len() < usize::MAX,
                cache.wf(),
                cache@ == spec_seed_cache(scan@.subrange(0, i as int)),
            decreases n - i,
        {
            let e = &scan[i];
            if !is_noise_path(e.raw_path.as_str()) {
                cache.insert(e.canon_path.clone(), e.content.clone());
            }
            proof {
                let cur = scan@.subrange(0, i + 1);
                assert(cur.drop_last() =~= scan@.subrange(0, i as int));
                assert(cur.last() == scan@[i as int]);
            }
            i += 1;
        }
        proof {
            assert(scan@.subrange(0, n as int) =~= scan@);
        }
        AppState {
            file_changes: Vec::new(),
            debounce_map: DebounceTable::new(),
            selected: None,
            show_sidebar: true,
            file_cache: cache,
            approval_queue: Vec::new(),
            ignore_next_write: IgnoreSet::new(),
            modal_active: false,
            show_diff_view: false,
        }
    }

    /// Run one raw notification through the filter stages and, when it
    /// survives, resolve it against the cache into a pending change or a
    /// log-only entry.  `disk_content` is the file's content as read by the
    /// caller, `None` when the read failed or the kind is a removal.
    pub fn add_change(
        &mut self,
        raw_path: &String,
        canon_path: &String,
        kind: ChangeKind,
        now_ms: u64,
        disk_content: Option<String>,
    )
        requires
            old(self).wf(),
            raw_path@.len() < usize::MAX,
            disk_content matches Some(c) ==> c@.len() < usize::MAX,
        ensures
            final(self).wf(),
            spec_add_change(
                *old(self),
                *final(self),
                raw_path@,
                canon_path@,
                kind,
                now_ms,
                match disk_content {
                    Some(c) => Some(c@),
                    None => None,
                },
            ),
    {
        let name = base_name(raw_path.as_str());

        // Stage one: the one-shot ignore, the breaker of the revert loop.
        if self.ignore_next_write.contains(canon_path) {
            self.ignore_next_write.consume(canon_path);
            return ;
        }
        // Stage two: the noise filter.
        if is_noise_path(raw_path.as_str()) {
            return ;
        }
        if is_hidden_name(name.as_str()) {
            return ;
        }
        // Stage three: the debounce window.
        if self.debounce_map.is_debounced(&name, kind, now_ms) {
            return ;
        }
        self.debounce_map.record(name.clone(), kind, now_ms);

        // Stage four: resolve content against the cache.
        let old_content: String = match self.file_cache.get(canon_path) {
            Some(v) => v.clone(),
            None => String::new(),
        };
        let diff_opt: Option<String>;
        match kind {
            ChangeKind::Remove => {
                if !old_content.as_str().is_empty() {
                    let note = deletion_note(&name);
                    let note_log = note.clone();
                    self.approval_queue.push(
                        PendingChange {
                            path: canon_path.clone(),
                            old_content,
                            new_content: String::new(),
                            diff_text: note,
                        },
                    );
                    self.modal_active = true;
                    diff_opt = Some(note_log);
                } else {
                    diff_opt = None;
                }
            },
            _ => {
                match disk_content {
                    None => {
                        diff_opt = None;
                    },
                    Some(content) => {
                        if content == old_content {
                            // the bytes on disk equal the approved bytes
                            return ;
                        }
                        let d = package_diff(old_content.as_str(), content.as_str());
                        let d_log = d.clone();
                        self.approval_queue.push(
                            PendingChange {
                                path: canon_path.clone(),
                                old_content,
                                new_content: content,
                                diff_text: d,
                            },
                        );
                        self.modal_active = true;
                        diff_opt = Some(d_log);
                    },
                }
            },
        }

        // Stage five: the display log, newest first, oldest evicted.
        if self.file_changes.len() >= LOG_CAPACITY {
            self.file_changes.pop();
        }
        self.file_changes.insert(
            0,
            FileChange { path: name, kind, timestamp: now_ms, diff: diff_opt },
        );
        self.selected = Some(0);
    }

    /// Accept the queue head: its content becomes the approved content.
    pub fn accept(&mut self)
        requires
            old(self).wf(),
        ensures
            final(self).wf(),
            spec_accept(*old(self), *final(self)),
    {
        if self.approval_queue.len() > 0 {
            let pending = self.approval_queue.remove(0);
            if pending.new_content.as_str().is_empty() {
                self.file_cache.remove(&pending.path);
            } else {
                self.file_cache.insert(pending.path, pending.new_content);
            }
            self.modal_active = self.approval_queue.len() > 0;
        }
    }

    /// Reject the queue head: arm its path in the ignore set and hand the
    /// caller the revert to perform on disk.  The arm precedes the write.
    pub fn reject(&mut self) -> (r: Option<RevertAction>)
        requires
            old(self).wf(),
        ensures
            final(self).wf(),
            spec_reject(*old(self), *final(self), r),
    {
        if self.approval_queue.len() > 0 {
            let pending = self.approval_queue.remove(0);
            self.ignore_next_write.arm(pending.path.clone());
            self.modal_active = self.approval_queue.len() > 0;
            if pending.old_content.as_str().is_empty() {
                Some(RevertAction::Delete { path: pending.path })
            } else {
                Some(RevertAction::Restore { path: pending.path, content: pending.old_content })
            }
        } else {
            None
        }
    }

    /// The pending change under review, when one is outstanding.
    pub fn head(&self) -> (r: Option<&PendingChange>)
        ensures
            r is Some <==> self.approval_queue@.len() > 0,
            r matches Some(p) ==> *p == self.approval_queue@[0],
    {
        if self.approval_queue.len() > 0 {
            Some(&self.approval_queue[0])
        } else {
            None
        }
    }
}

} // verus!

