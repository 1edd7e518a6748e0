//! The trusted boundary to the status query engine (the `git2` crate).
//!
//! Everything the engine reports depends on what is on disk at the moment
//! of the call, so none of these wrappers promises anything about its
//! result; each hands back plain values that the verified code then
//! handles for every possible outcome.  Paths cross the boundary as
//! bytes; a path the engine cannot render as UTF-8 is treated as absent.

use vstd::prelude::*;

use crate::table::PathStatus;

verus! {

#[verifier::external_type_specification]
#[verifier::external_body]
pub struct ExRepository(git2::Repository);

/// How repository discovery may search: pinned to one explicitly named
/// repository location, or from the candidate path rootwards, honoring
/// the ambient environment configuration.
pub enum DiscoverMode {
    /// Open exactly the named location: no upward search, and no
    /// requirement that it bear the conventional metadata-directory name.
    GitDirOverride,
    /// Search upward from the path, honoring the same environment
    /// variables the version-control tool itself does.
    FromEnv,
}

/// Relies on `git2::Repository::open_ext`: opens or discovers a
/// repository starting from `path`, under the flags the mode names.
#[verifier::external_body]
pub(crate) fn open_repo(path: &Vec<u8>, mode: &DiscoverMode) -> (r: Option<git2::Repository>) {
    let flags = match mode {
        DiscoverMode::GitDirOverride => git2::RepositoryOpenFlags::NO_SEARCH
            | git2::RepositoryOpenFlags::NO_DOTGIT,
        DiscoverMode::FromEnv => git2::RepositoryOpenFlags::FROM_ENV,
    };
    let p = String::from_utf8_lossy(path).into_owned();
    let unused: [&str; 0] = [];
    git2::Repository::open_ext(p, flags, unused).ok()
}

/// Relies on `git2::Repository::open`: opens the repository at exactly
/// `path`, with no upward search.
#[verifier::external_body]
pub(crate) fn open_repo_at(path: &Vec<u8>) -> (r: Option<git2::Repository>) {
    let p = String::from_utf8_lossy(path).into_owned();
    git2::Repository::open(p).ok()
}

/// Relies on `git2::Repository::workdir`: the root directory of the
/// repository's working tree, or `None` for a bare repository — and
/// also for a working directory that cannot be rendered as UTF-8, which
/// the caller then treats like a missing one.
#[verifier::external_body]
pub(crate) fn repo_workdir(repo: &git2::Repository) -> (r: Option<Vec<u8>>) {
    match repo.workdir().and_then(|p| p.to_str()) {
        Some(s) => Some(s.as_bytes().to_vec()),
        None => None,
    }
}

/// Relies on `git2::Repository::statuses` (the full status walk), and on
/// `git2::StatusEntry::path_bytes` and `git2::StatusEntry::status` to
/// read each entry: every non-clean path, relative to the working
/// directory, with its raw flag set.  `None` reports a failed walk.
#[verifier::external_body]
pub(crate) fn repo_statuses(repo: &git2::Repository) -> (r: Option<Vec<PathStatus>>) {
    match repo.statuses(None) {
        Ok(es) => Some(
            es.iter().map(
                |e| PathStatus { path: e.path_bytes().to_vec(), flags: e.status().bits() },
            ).collect(),
        ),
        Err(_) => None,
    }
}

/// Relies on `git2::Repository::head` and `git2::Reference::shorthand`:
/// the short name of the current branch, or `None` when the head is
/// unborn, detached onto no readable name, or unreadable.
#[verifier::external_body]
pub(crate) fn repo_branch(repo: &git2::Repository) -> (r: Option<String>) {
    match repo.head() {
        Ok(h) => match h.shorthand() {
            Ok(s) => Some(s.to_string()),
            Err(_) => None,
        },
        Err(_) => None,
    }
}

} // verus!
