//! A supervisory review layer for a terminal session whose child process may
//! edit the working tree: filesystem notifications are filtered, debounced,
//! resolved into content diffs against a snapshot of last-approved contents,
//! and queued for an explicit accept-or-reject decision.  Rejection yields a
//! revert action for the caller to perform on disk, paired with a one-shot
//! ignore entry that swallows the notification the revert itself provokes.

pub mod cache;
pub mod coordinator;
pub mod debounce;
pub mod diff;
pub mod ignore;
pub mod keys;
pub mod laws;
pub mod paths;
pub mod present;
pub mod theme;
pub mod types;
