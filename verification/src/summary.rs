//! One-shot clean/dirty/absent classification of a single directory,
//! with its current branch name.
//!
//! This is coarse-grained reporting, independent of the repository
//! cache: every call opens the repository at exactly the given path and,
//! when asked for status, walks it afresh.

use vstd::prelude::*;

use crate::engine;
use crate::status::STATUS_IGNORED;
use crate::table::PathStatus;

verus! {

/// The clean/dirty/absent classification of one directory.
#[derive(Clone, Copy, Debug, PartialEq, Eq, Structural)]
pub enum SubdirGitRepoStatus {
    /// No repository is rooted at the directory.
    NoRepo,
    /// Every reported status entry is exactly the ignored flag.
    GitClean,
    /// At least one reported status entry is not the ignored flag alone.
    GitDirty,
}

/// The summary reported for one directory: its classification, absent
/// when the caller opted out of status, and its current branch short
/// name, absent for an unborn or unreadable head.
#[derive(Debug)]
pub struct SubdirGitRepo {
    /// The directory's classification, if status was requested.
    pub status: Option<SubdirGitRepoStatus>,
    /// The current branch's short name, if one could be read.
    pub branch: Option<String>,
}

/// Whether some entry's flag set is anything other than exactly the
/// ignored flag.
pub open spec fn any_unignored(entries: Seq<PathStatus>) -> bool {
    exists|i: int| 0 <= i < entries.len() && (#[trigger] entries[i]).flags != STATUS_IGNORED
}

/// Classifies a fresh status walk's entries: dirty as soon as any entry
/// reports something besides the bare ignored flag, clean otherwise — in
/// particular on a walk with no entries at all.
pub fn classify_entries(entries: &Vec<PathStatus>) -> (r: SubdirGitRepoStatus)
    ensures
        r == (if any_unignored(entries@) {
            SubdirGitRepoStatus::GitDirty
        } else {
            SubdirGitRepoStatus::GitClean
        }),
{
    let mut i: usize = 0;
    while i < entries.len()
        invariant
            i <= entries@.len(),
            forall|j: int| 0 <= j < i ==> (#[trigger] entries@[j]).flags == STATUS_IGNORED,
        decreases entries@.len() - i,
    {
        if entries[i].flags != STATUS_IGNORED {
            return SubdirGitRepoStatus::GitDirty;
        }
        i += 1;
    }
    SubdirGitRepoStatus::GitClean
}

impl SubdirGitRepo {
    /// Summarizes the repository rooted at exactly `dir` (already in
    /// canonical form; no upward search).  With no repository there, the
    /// status — when requested — is `NoRepo` and the branch absent.
    /// Otherwise the branch is read, and when status is requested a
    /// fresh walk is classified per [`classify_entries`]; a failed walk
    /// falls through to `NoRepo` with the branch absent.  The status
    /// field is present exactly when `want_status` asked for it, and a
    /// `NoRepo` answer — no repository, or no readable walk — never
    /// carries a branch.
    pub fn from_path(dir: &Vec<u8>, want_status: bool) -> (r: Self)
        ensures
            r.status is Some <==> want_status,
            r.status == Some(SubdirGitRepoStatus::NoRepo) ==> r.branch is None,
    {
        match engine::open_repo_at(dir) {
            Some(repo) => {
                let branch = engine::repo_branch(&repo);
                if !want_status {
                    return SubdirGitRepo { status: None, branch };
                }
                match engine::repo_statuses(&repo) {
                    Some(entries) => SubdirGitRepo {
                        status: Some(classify_entries(&entries)),
                        branch,
                    },
                    None => SubdirGitRepo {
                        status: Some(SubdirGitRepoStatus::NoRepo),
                        branch: None,
                    },
                }
            },
            None => SubdirGitRepo {
                status: if want_status {
                    Some(SubdirGitRepoStatus::NoRepo)
                } else {
                    None
                },
                branch: None,
            },
        }
    }
}

} // verus!
