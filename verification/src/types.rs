//! The data carried through the pipeline: the classification of a raw
//! notification, the log entry shown in the sidebar, the unit of approval,
//! and the revert action a rejection asks the caller to perform.

use vstd::prelude::*;

verus! {

/// Classification of a filesystem notification.  Renames are folded into
/// `Modify`: the old-path/new-path relationship is deliberately not kept.
#[derive(Clone, Copy, Debug, PartialEq, Eq, Hash, Structural)]
pub enum ChangeKind {
    Create,
    Modify,
    Remove,
}

/// One entry of the bounded, newest-first change log kept for display.
/// Created once per surviving notification and never mutated.
#[derive(Clone, Debug)]
pub struct FileChange {
    /// Base name of the changed file, for display.
    pub path: String,
    pub kind: ChangeKind,
    /// Milliseconds on the caller's monotonic clock when the entry was made.
    pub timestamp: u64,
    /// The packaged diff, when the notification resolved to a content change.
    pub diff: Option<String>,
}

/// The unit of approval: a content change awaiting an accept or reject
/// decision.  An empty `new_content` records a deletion.
#[derive(Clone, Debug)]
pub struct PendingChange {
    /// Canonical path, the snapshot-cache key and the revert target.
    pub path: String,
    /// Last-approved content; empty when the file was unknown to the cache.
    pub old_content: String,
    /// Content now on disk; empty when the file was removed.
    pub new_content: String,
    /// Human-readable rendering of the change.
    pub diff_text: String,
}

/// What a rejection asks the caller to do to the filesystem.
#[derive(Clone, Debug)]
pub enum RevertAction {
    /// The change created the file; remove it again.
    Delete { path: String },
    /// The change altered or removed the file; write this content back.
    Restore { path: String, content: String },
}

} // verus!
