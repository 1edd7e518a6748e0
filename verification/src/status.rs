//! Raw status flag sets and their user-facing classification.
//!
//! The query engine reports each non-clean path with a bitset of raw
//! status flags; the index-relative (staged) and working-tree-relative
//! (unstaged) halves of that set are classified independently, each by a
//! fixed priority order.

use vstd::prelude::*;

verus! {

/// Index-side flag: path added to the index.
pub const STATUS_INDEX_NEW: u32 = 1;

/// Index-side flag: path modified in the index.
pub const STATUS_INDEX_MODIFIED: u32 = 2;

/// Index-side flag: path deleted in the index.
pub const STATUS_INDEX_DELETED: u32 = 4;

/// Index-side flag: path renamed in the index.
pub const STATUS_INDEX_RENAMED: u32 = 8;

/// Index-side flag: path's type changed in the index.
pub const STATUS_INDEX_TYPECHANGE: u32 = 16;

/// Working-tree flag: path is new (untracked).
pub const STATUS_WT_NEW: u32 = 128;

/// Working-tree flag: path is modified.
pub const STATUS_WT_MODIFIED: u32 = 256;

/// Working-tree flag: path is deleted.
pub const STATUS_WT_DELETED: u32 = 512;

/// Working-tree flag: path's type changed.
pub const STATUS_WT_TYPECHANGE: u32 = 1024;

/// Working-tree flag: path is renamed.
pub const STATUS_WT_RENAMED: u32 = 2048;

/// Flag: path is excluded from tracking by repository configuration.
pub const STATUS_IGNORED: u32 = 16384;

/// Flag: path carries an unresolved merge conflict.
pub const STATUS_CONFLICTED: u32 = 32768;

/// The user-facing classification of one side (index or working tree) of
/// a raw flag set.
#[derive(Clone, Copy, Debug, PartialEq, Eq, Structural)]
pub enum GitStatus {
    /// Nothing on this side reports a change.
    NotModified,
    /// A new, not-yet-tracked or newly added path.
    New,
    /// A tracked path with changed contents.
    Modified,
    /// A tracked path that was removed.
    Deleted,
    /// A tracked path that was moved.
    Renamed,
    /// A tracked path whose file type changed.
    TypeChange,
    /// A path excluded from tracking.
    Ignored,
    /// A path with an unresolved merge conflict.
    Conflicted,
}

/// The status reported for one queried path: the index-relative and the
/// working-tree-relative classification, side by side.  The two are
/// independent; a path can be staged-`Modified` and yet
/// unstaged-`NotModified`.
#[derive(Clone, Copy, Debug, PartialEq, Eq, Structural)]
pub struct Git {
    /// Classification of the changes already recorded for the next commit.
    pub staged: GitStatus,
    /// Classification of the changes not yet recorded.
    pub unstaged: GitStatus,
}

/// The status of a path no known repository tracks: both sides
/// `NotModified`.
pub open spec fn git_default() -> Git {
    Git { staged: GitStatus::NotModified, unstaged: GitStatus::NotModified }
}

impl Default for Git {
    /// The status of a path no known repository tracks.
    fn default() -> (r: Self)
        ensures
            r == git_default(),
    {
        Git { staged: GitStatus::NotModified, unstaged: GitStatus::NotModified }
    }
}

/// The working-tree classification of a raw flag set: the first match in
/// priority order New > Modified > Deleted > Renamed > TypeChange >
/// Ignored > Conflicted, else NotModified.
pub open spec fn working_tree_status_spec(s: u32) -> GitStatus {
    if s & STATUS_WT_NEW != 0 {
        GitStatus::New
    } else if s & STATUS_WT_MODIFIED != 0 {
        GitStatus::Modified
    } else if s & STATUS_WT_DELETED != 0 {
        GitStatus::Deleted
    } else if s & STATUS_WT_RENAMED != 0 {
        GitStatus::Renamed
    } else if s & STATUS_WT_TYPECHANGE != 0 {
        GitStatus::TypeChange
    } else if s & STATUS_IGNORED != 0 {
        GitStatus::Ignored
    } else if s & STATUS_CONFLICTED != 0 {
        GitStatus::Conflicted
    } else {
        GitStatus::NotModified
    }
}

/// The index classification of a raw flag set: the first match in
/// priority order New > Modified > Deleted > Renamed > TypeChange, else
/// NotModified.  Ignored and Conflicted are never reported as staged.
pub open spec fn index_status_spec(s: u32) -> GitStatus {
    if s & STATUS_INDEX_NEW != 0 {
        GitStatus::New
    } else if s & STATUS_INDEX_MODIFIED != 0 {
        GitStatus::Modified
    } else if s & STATUS_INDEX_DELETED != 0 {
        GitStatus::Deleted
    } else if s & STATUS_INDEX_RENAMED != 0 {
        GitStatus::Renamed
    } else if s & STATUS_INDEX_TYPECHANGE != 0 {
        GitStatus::TypeChange
    } else {
        GitStatus::NotModified
    }
}

/// Classifies the working-tree side of a raw flag set, per
/// [`working_tree_status_spec`].
pub fn working_tree_status(status: u32) -> (r: GitStatus)
    ensures
        r == working_tree_status_spec(status),
{
    if status & STATUS_WT_NEW != 0 {
        GitStatus::New
    } else if status & STATUS_WT_MODIFIED != 0 {
        GitStatus::Modified
    } else if status & STATUS_WT_DELETED != 0 {
        GitStatus::Deleted
    } else if status & STATUS_WT_RENAMED != 0 {
        GitStatus::Renamed
    } else if status & STATUS_WT_TYPECHANGE != 0 {
        GitStatus::TypeChange
    } else if status & STATUS_IGNORED != 0 {
        GitStatus::Ignored
    } else if status & STATUS_CONFLICTED != 0 {
        GitStatus::Conflicted
    } else {
        GitStatus::NotModified
    }
}

/// Classifies the index side of a raw flag set, per [`index_status_spec`].
pub fn index_status(status: u32) -> (r: GitStatus)
    ensures
        r == index_status_spec(status),
{
    if status & STATUS_INDEX_NEW != 0 {
        GitStatus::New
    } else if status & STATUS_INDEX_MODIFIED != 0 {
        GitStatus::Modified
    } else if status & STATUS_INDEX_DELETED != 0 {
        GitStatus::Deleted
    } else if status & STATUS_INDEX_RENAMED != 0 {
        GitStatus::Renamed
    } else if status & STATUS_INDEX_TYPECHANGE != 0 {
        GitStatus::TypeChange
    } else {
        GitStatus::NotModified
    }
}

/// The empty flag set classifies as NotModified on both sides.
pub proof fn lemma_zero_flags_not_modified()
    ensures
        index_status_spec(0) == GitStatus::NotModified,
        working_tree_status_spec(0) == GitStatus::NotModified,
{
    assert(0u32 & 1u32 == 0 && 0u32 & 2u32 == 0 && 0u32 & 4u32 == 0 && 0u32 & 8u32 == 0 && 0u32
        & 16u32 == 0 && 0u32 & 128u32 == 0 && 0u32 & 256u32 == 0 && 0u32 & 512u32 == 0 && 0u32
        & 1024u32 == 0 && 0u32 & 2048u32 == 0 && 0u32 & 16384u32 == 0 && 0u32 & 32768u32 == 0)
        by (bit_vector);
}

/// An index-side New flag wins the staged classification outright, no
/// matter which other flags — in particular an index-side Modified —
/// accompany it.
pub proof fn lemma_staged_new_beats_modified(s: u32)
    requires
        s & STATUS_INDEX_NEW != 0,
    ensures
        index_status_spec(s) == GitStatus::New,
{
}

/// A working-tree New flag wins the unstaged classification outright, no
/// matter which other flags accompany it.
pub proof fn lemma_unstaged_new_wins(s: u32)
    requires
        s & STATUS_WT_NEW != 0,
    ensures
        working_tree_status_spec(s) == GitStatus::New,
{
}

} // verus!
