//! Discovered repositories and the cache that deduplicates them.
//!
//! A [`GitRepo`] wraps one discovered repository: either the unopened
//! engine handle or the computed status table, never both, held behind
//! one exclusive-access lock whose invariant pins the compute-once
//! guarantee.  A [`GitCache`] is the batch of repositories discovered for
//! one listing operation, plus the paths confirmed to be outside any
//! repository.

use vstd::prelude::*;
use vstd::rwlock::RwLock;
use vstd::rwlock::RwLockPredicate;

use crate::engine;
use crate::engine::DiscoverMode;
use crate::path::bytes_eq;
use crate::path::contains_path;
use crate::path::is_under;
use crate::path::lemma_path_under_refl;
use crate::path::path_under;
use crate::path::seq_contains_path;
use crate::status::git_default;
use crate::status::index_status_spec;
use crate::status::lemma_zero_flags_not_modified;
use crate::status::working_tree_status_spec;
use crate::status::Git;
use crate::table::agg_flags;
use crate::table::PathStatus;
use crate::table::StatusTable;

verus! {

/// A repository's queried state: the engine handle before the first
/// lookup, or the frozen status table after it — never both.
pub enum GitContents {
    /// The engine handle, not yet queried.
    Before { repo: git2::Repository },
    /// What the one status walk produced.
    After { statuses: StatusTable },
}

/// What one repository's lock protects: the state, plus a ghost count of
/// how many times the engine's full-status walk has run for this
/// repository.  The only place that count rises is the one branch of
/// [`GitRepo::search`] that invokes the engine.
pub struct RepoCell {
    /// The repository's state.
    pub state: GitContents,
    /// How many times the status walk has run.
    pub walks: Ghost<int>,
}

/// The lock invariant: the state only ever moves from `Before` to
/// `After`, and the walk has run exactly once when, and only when, it
/// has.  Every value the slot can hold satisfies this, so no caller ever
/// observes a partially built table or a second walk.
pub open spec fn repo_cell_inv(c: RepoCell) -> bool {
    &&& c.state is Before ==> c.walks@ == 0
    &&& c.state is After ==> c.walks@ == 1
}

/// The predicate fixed on every repository slot's lock.
pub struct RepoPred {}

impl RwLockPredicate<RepoCell> for RepoPred {
    open spec fn inv(self, c: RepoCell) -> bool {
        repo_cell_inv(c)
    }
}

/// Compute-once: whatever a repository's slot holds, the engine's
/// full-status walk has run at most once for it — and exactly once as
/// soon as the state has moved to `After`.  However many lookups race
/// through [`GitRepo::search`], each observes a slot satisfying the lock
/// invariant, so none can trigger a second walk.
pub proof fn lemma_walk_at_most_once(c: RepoCell)
    requires
        repo_cell_inv(c),
    ensures
        0 <= c.walks@ <= 1,
        c.state is After ==> c.walks@ == 1,
{
}

/// One discovered repository: its identity, its claimed paths, and its
/// lazily computed status table.
pub struct GitRepo {
    /// The queryable contents, behind the exclusive-access lock.
    pub contents: RwLock<RepoCell, RepoPred>,
    /// The canonical working directory; the identity key that
    /// deduplicates repositories.
    pub workdir: Vec<u8>,
    /// The candidate path whose discovery produced this repository.
    pub original_path: Vec<u8>,
    /// Other candidate paths later found to resolve to the same working
    /// directory.
    pub extra_paths: Vec<Vec<u8>>,
}

impl GitRepo {
    /// Whether this repository's claimed-path set covers `p`: `p` equals
    /// or is nested under the original path or any extra path.
    pub open spec fn claims(self, p: Seq<u8>) -> bool {
        path_under(p, self.original_path@) || exists|i: int|
            0 <= i < self.extra_paths@.len() && path_under(p, #[trigger] self.extra_paths@[i]@)
    }

    /// Discovers the repository covering `path`, in the given search
    /// mode.  A path outside every repository, and one whose repository
    /// has no usable working tree, comes back as a miss carrying the path
    /// unchanged.
    pub fn discover(path: Vec<u8>, mode: &DiscoverMode) -> (r: Result<GitRepo, Vec<u8>>)
        ensures
            (r matches Ok(g) ==> g.original_path@ == path@ && g.extra_paths@.len() == 0),
            (r matches Err(p) ==> p@ == path@),
    {
        match engine::open_repo(&path, mode) {
            Some(repo) => match engine::repo_workdir(&repo) {
                Some(wd) => Ok(
                    GitRepo {
                        contents: RwLock::new(
                            RepoCell { state: GitContents::Before { repo }, walks: Ghost(0) },
                            Ghost(RepoPred {}),
                        ),
                        workdir: wd,
                        original_path: path,
                        extra_paths: Vec::new(),
                    },
                ),
                None => Err(path),
            },
            None => Err(path),
        }
    }

    /// Whether this repository has the given working directory.
    pub fn has_workdir(&self, path: &Vec<u8>) -> (r: bool)
        ensures
            r == (self.workdir@ == path@),
    {
        bytes_eq(&self.workdir, path)
    }

    /// Whether this repository cares about the given path at all, per
    /// [`GitRepo::claims`].
    pub fn has_path(&self, path: &Vec<u8>) -> (r: bool)
        ensures
            r == self.claims(path@),
    {
        if is_under(path, &self.original_path) {
            return true;
        }
        let mut i: usize = 0;
        while i < self.extra_paths.len()
            invariant
                i <= self.extra_paths@.len(),
                forall|j: int| 0 <= j < i ==> !path_under(path@, #[trigger] self.extra_paths@[j]@),
            decreases self.extra_paths@.len() - i,
        {
            if is_under(path, &self.extra_paths[i]) {
                return true;
            }
            i += 1;
        }
        false
    }

    /// The status of `reoriented` (a file, or a directory when
    /// `prefix_lookup` is set) in this repository.  The first call to
    /// reach a repository moves its state forward and runs the engine's
    /// status walk — a failed walk freezes the empty table — and every
    /// call after that answers from the frozen table with no engine
    /// involvement; the lock linearizes concurrent callers.  Which table
    /// is frozen depends on what the engine reported, so the contract
    /// promises what holds of every outcome: the answer is the exact
    /// [`StatusTable::status`] classification of this query against some
    /// table's entries, never a value aggregation could not produce.
    pub fn search(&self, reoriented: &Vec<u8>, prefix_lookup: bool) -> (r: Git)
        ensures
            exists|es: Seq<PathStatus>|
                r.staged == index_status_spec(#[trigger] agg_flags(es, reoriented@, prefix_lookup))
                    && r.unstaged == working_tree_status_spec(
                    agg_flags(es, reoriented@, prefix_lookup),
                ),
    {
        let (cell, handle) = self.contents.acquire_write();
        let RepoCell { state, walks } = cell;
        match state {
            GitContents::After { statuses } => {
                let r = statuses.status(reoriented, prefix_lookup);
                proof {
                    assert(r.staged == index_status_spec(
                        agg_flags(statuses.entries@, reoriented@, prefix_lookup),
                    ));
                }
                handle.release_write(RepoCell { state: GitContents::After { statuses }, walks });
                r
            },
            GitContents::Before { repo } => {
                let statuses = match engine::repo_statuses(&repo) {
                    Some(raw) => StatusTable::from_entries(&self.workdir, &raw),
                    None => StatusTable::empty(),
                };
                let r = statuses.status(reoriented, prefix_lookup);
                proof {
                    assert(r.staged == index_status_spec(
                        agg_flags(statuses.entries@, reoriented@, prefix_lookup),
                    ));
                }
                handle.release_write(
                    RepoCell {
                        state: GitContents::After { statuses },
                        walks: Ghost(walks@ + 1),
                    },
                );
                r
            },
        }
    }
}

/// Discovery of `p` failed: only the miss list grew, by exactly `p`.
pub open spec fn recorded_miss(pre: GitCache, post: GitCache, p: Seq<u8>) -> bool {
    &&& post.repos@ == pre.repos@
    &&& post.misses@.len() == pre.misses@.len() + 1
    &&& post.misses@[pre.misses@.len() as int]@ == p
    &&& forall|k: int| 0 <= k < pre.misses@.len() ==> post.misses@[k] == #[trigger] pre.misses@[k]
}

/// Discovery of `p` found a working directory seen for the first time:
/// one repository entry was appended, with `p` as its original path and
/// no extra paths yet, and nothing else moved.
pub open spec fn added_repo(pre: GitCache, post: GitCache, p: Seq<u8>) -> bool {
    &&& post.misses@ == pre.misses@
    &&& post.repos@.len() == pre.repos@.len() + 1
    &&& forall|k: int| 0 <= k < pre.repos@.len() ==> post.repos@[k] == #[trigger] pre.repos@[k]
    &&& post.repos@[pre.repos@.len() as int].original_path@ == p
    &&& post.repos@[pre.repos@.len() as int].extra_paths@.len() == 0
}

/// Discovery of `p` resolved to the working directory of the repository
/// at index `i`: that entry alone changed, by gaining `p` as one more
/// extra path.
pub open spec fn merged_at(pre: GitCache, post: GitCache, p: Seq<u8>, i: int) -> bool {
    &&& post.repos@[i].workdir@ == pre.repos@[i].workdir@
    &&& post.repos@[i].original_path@ == pre.repos@[i].original_path@
    &&& post.repos@[i].extra_paths@.len() == pre.repos@[i].extra_paths@.len() + 1
    &&& post.repos@[i].extra_paths@[pre.repos@[i].extra_paths@.len() as int]@ == p
    &&& forall|m: int|
        0 <= m < pre.repos@[i].extra_paths@.len() ==> post.repos@[i].extra_paths@[m]
            == #[trigger] pre.repos@[i].extra_paths@[m]
    &&& forall|k: int|
        0 <= k < pre.repos@.len() && k != i ==> post.repos@[k] == #[trigger] pre.repos@[k]
}

/// Discovery of `p` resolved to a working directory seen before: no
/// entry was added or removed, and exactly one existing repository
/// gained `p` as an extra path.
pub open spec fn merged_into(pre: GitCache, post: GitCache, p: Seq<u8>) -> bool {
    &&& post.misses@ == pre.misses@
    &&& post.repos@.len() == pre.repos@.len()
    &&& exists|i: int| 0 <= i < pre.repos@.len() && #[trigger] merged_at(pre, post, p, i)
}

/// The set of repositories discovered for one batch of candidate paths,
/// plus the negative cache of paths confirmed to be outside any
/// repository.  Built once, then used read-only for lookups; lists are
/// scanned linearly because a listing touches at most a handful of
/// repositories.
pub struct GitCache {
    /// The discovered repositories, each with a distinct working
    /// directory.
    pub repos: Vec<GitRepo>,
    /// Paths confirmed to have no owning repository.
    pub misses: Vec<Vec<u8>>,
    /// How many times repository discovery has run for each candidate
    /// path, kept as ghost data; the only places that raise a count are
    /// the discovery call sites in this module.
    pub attempts: Ghost<Map<Seq<u8>, int>>,
}

impl GitCache {
    /// Whether some discovered repository's claimed-path set covers `p`.
    pub open spec fn any_claims(self, p: Seq<u8>) -> bool {
        exists|i: int| 0 <= i < self.repos@.len() && #[trigger] self.repos@[i].claims(p)
    }

    /// Whether `p` was recorded as a miss.  Misses match by exact
    /// equality, not by prefix: a path nested under a missed path is not
    /// short-circuited unless it was tried and missed itself.
    pub open spec fn in_misses(self, p: Seq<u8>) -> bool {
        seq_contains_path(self.misses@, p)
    }

    /// Whether processing `p` again would be a no-op: it is claimed by a
    /// repository or recorded as a miss.
    pub open spec fn covered(self, p: Seq<u8>) -> bool {
        self.any_claims(p) || self.in_misses(p)
    }

    /// How many times discovery has run for `p`.
    pub open spec fn attempts_on(self, p: Seq<u8>) -> int {
        if self.attempts@.dom().contains(p) {
            self.attempts@[p]
        } else {
            0
        }
    }

    /// Well-formedness: no two repositories share a working directory,
    /// and discovery has run at most once per path — and only for paths
    /// the cache then covers, so it can never run for them again.
    pub open spec fn wf(self) -> bool {
        &&& forall|i: int, j: int|
            0 <= i < self.repos@.len() && 0 <= j < self.repos@.len() && i != j
                ==> #[trigger] self.repos@[i].workdir@ != #[trigger] self.repos@[j].workdir@
        &&& forall|p: Seq<u8>| 0 <= #[trigger] self.attempts_on(p) <= 1
        &&& forall|p: Seq<u8>| #[trigger] self.attempts_on(p) == 1 ==> self.covered(p)
    }

    /// The empty cache.
    pub fn new() -> (r: GitCache)
        ensures
            r.wf(),
            r.repos@.len() == 0,
            r.misses@.len() == 0,
            forall|p: Seq<u8>| #[trigger] r.attempts_on(p) == 0,
    {
        GitCache { repos: Vec::new(), misses: Vec::new(), attempts: Ghost(Map::empty()) }
    }

    /// Whether any discovered repository claims `index`.
    pub fn has_anything_for(&self, index: &Vec<u8>) -> (r: bool)
        ensures
            r == self.any_claims(index@),
    {
        let mut i: usize = 0;
        while i < self.repos.len()
            invariant
                i <= self.repos@.len(),
                forall|j: int| 0 <= j < i ==> !#[trigger] self.repos@[j].claims(index@),
            decreases self.repos@.len() - i,
        {
            if self.repos[i].has_path(index) {
                return true;
            }
            i += 1;
        }
        false
    }

    /// The status of `index` — `reoriented` is its canonical form (see
    /// [`crate::reorient`]), and `prefix_lookup` asks for a directory's
    /// aggregate — from the first repository in discovery order that
    /// claims `index` (its [`GitRepo::search`]).  A path no repository
    /// claims reports the default status: not tracked by any known
    /// repository, which is distinct from clean.  Either way the answer
    /// is the exact aggregation of this query against some table's
    /// entries — the empty entries in the untracked case.
    pub fn get(&self, index: &Vec<u8>, reoriented: &Vec<u8>, prefix_lookup: bool) -> (r: Git)
        ensures
            !self.any_claims(index@) ==> r == git_default(),
            exists|es: Seq<PathStatus>|
                r.staged == index_status_spec(#[trigger] agg_flags(es, reoriented@, prefix_lookup))
                    && r.unstaged == working_tree_status_spec(
                    agg_flags(es, reoriented@, prefix_lookup),
                ),
    {
        let mut i: usize = 0;
        while i < self.repos.len()
            invariant
                i <= self.repos@.len(),
                forall|j: int| 0 <= j < i ==> !#[trigger] self.repos@[j].claims(index@),
            decreases self.repos@.len() - i,
        {
            if self.repos[i].has_path(index) {
                return self.repos[i].search(reoriented, prefix_lookup);
            }
            i += 1;
        }
        proof {
            lemma_zero_flags_not_modified();
            assert(agg_flags(Seq::<PathStatus>::empty(), reoriented@, prefix_lookup) == 0);
        }
        Git::default()
    }

    /// The index of the repository with working directory `wd`, if one
    /// was discovered.
    fn find_workdir(&self, wd: &Vec<u8>) -> (r: Option<usize>)
        ensures
            match r {
                Some(i) => (i as int) < self.repos@.len() && self.repos@[i as int].workdir@
                    == wd@,
                None => forall|i: int|
                    0 <= i < self.repos@.len() ==> #[trigger] self.repos@[i].workdir@ != wd@,
            },
    {
        let mut i: usize = 0;
        while i < self.repos.len()
            invariant
                i <= self.repos@.len(),
                forall|j: int| 0 <= j < i ==> #[trigger] self.repos@[j].workdir@ != wd@,
            decreases self.repos@.len() - i,
        {
            if self.repos[i].has_workdir(wd) {
                return Some(i);
            }
            i += 1;
        }
        None
    }

    /// Runs discovery for a path nothing covers yet, and records the
    /// outcome: a repository with a working directory seen before lends
    /// the path to that entry; a new working directory appends a new
    /// entry; a failure appends a miss.  Either way the path ends up
    /// covered, nothing already recorded moves or weakens, and the
    /// path's attempt count rises from zero to one.
    fn discover_into(&mut self, path: Vec<u8>, mode: &DiscoverMode)
        requires
            old(self).wf(),
            !old(self).covered(path@),
        ensures
            final(self).wf(),
            final(self).covered(path@),
            recorded_miss(*old(self), *final(self), path@) || added_repo(
                *old(self),
                *final(self),
                path@,
            ) || merged_into(*old(self), *final(self), path@),
            forall|k: int, p: Seq<u8>|
                0 <= k < old(self).repos@.len() && #[trigger] old(self).repos@[k].claims(p)
                    ==> k < final(self).repos@.len() && final(self).repos@[k].claims(p),
            forall|p: Seq<u8>| old(self).in_misses(p) ==> final(self).in_misses(p),
            forall|p: Seq<u8>| old(self).covered(p) ==> final(self).covered(p),
            forall|p: Seq<u8>| #[trigger]
                final(self).attempts_on(p) == old(self).attempts_on(p) + (if p == path@ {
                    1int
                } else {
                    0int
                }),
    {
        let ghost pv = path@;
        let ghost a0 = self.attempts_on(pv);
        proof {
            assert(a0 == 0);
        }
        self.attempts = Ghost(self.attempts@.insert(pv, a0 + 1));
        match GitRepo::discover(path, mode) {
            Ok(r) => {
                match self.find_workdir(&r.workdir) {
                    Some(i) => {
                        let GitRepo { original_path, .. } = r;
                        let mut entry = self.repos.remove(i);
                        entry.extra_paths.push(original_path);
                        self.repos.insert(i, entry);
                        proof {
                            let rs = old(self).repos@;
                            let e2 = self.repos@[i as int];
                            assert(self.repos@ =~= rs.update(i as int, e2));
                            lemma_path_under_refl(pv);
                            assert(e2.extra_paths@[e2.extra_paths@.len() - 1]@ == pv);
                            assert(e2.claims(pv));
                            assert(self.covered(pv));
                            assert(merged_at(*old(self), *self, pv, i as int));
                            assert(merged_into(*old(self), *self, pv));
                            assert forall|k: int, p: Seq<u8>|
                                0 <= k < rs.len() && #[trigger] rs[k].claims(
                                    p,
                                ) implies k < self.repos@.len() && self.repos@[k].claims(p) by {
                                if k == i {
                                    if path_under(p, rs[k].original_path@) {
                                        assert(e2.claims(p));
                                    } else {
                                        let m = choose|m: int|
                                            0 <= m < rs[k].extra_paths@.len() && path_under(
                                                p,
                                                #[trigger] rs[k].extra_paths@[m]@,
                                            );
                                        assert(e2.extra_paths@[m]@ == rs[k].extra_paths@[m]@);
                                        assert(e2.claims(p));
                                    }
                                } else {
                                    assert(self.repos@[k] == rs[k]);
                                }
                            }
                            assert forall|p: Seq<u8>| old(self).covered(p) implies self.covered(
                                p,
                            ) by {
                                if old(self).any_claims(p) {
                                    let k = choose|k: int|
                                        0 <= k < rs.len() && #[trigger] rs[k].claims(p);
                                    assert(self.repos@[k].claims(p));
                                }
                            }
                        }
                    },
                    None => {
                        self.repos.push(r);
                        proof {
                            let rs = old(self).repos@;
                            let n = rs.len() as int;
                            lemma_path_under_refl(pv);
                            assert(self.repos@[n].claims(pv));
                            assert(self.covered(pv));
                            assert(added_repo(*old(self), *self, pv));
                            assert forall|k: int, p: Seq<u8>|
                                0 <= k < rs.len() && #[trigger] rs[k].claims(
                                    p,
                                ) implies k < self.repos@.len() && self.repos@[k].claims(p) by {
                                assert(self.repos@[k] == rs[k]);
                            }
                            assert forall|p: Seq<u8>| old(self).covered(p) implies self.covered(
                                p,
                            ) by {
                                if old(self).any_claims(p) {
                                    let k = choose|k: int|
                                        0 <= k < rs.len() && #[trigger] rs[k].claims(p);
                                    assert(self.repos@[k].claims(p));
                                }
                            }
                        }
                    },
                }
            },
            Err(miss) => {
                self.misses.push(miss);
                proof {
                    assert(self.misses@[self.misses@.len() - 1]@ == pv);
                    assert(self.in_misses(pv));
                    assert(recorded_miss(*old(self), *self, pv));
                    assert forall|k: int, p: Seq<u8>|
                        0 <= k < old(self).repos@.len() && #[trigger] old(self).repos@[k].claims(
                            p,
                        ) implies k < self.repos@.len() && self.repos@[k].claims(p) by {
                        assert(self.repos@[k] == old(self).repos@[k]);
                    }
                    assert forall|p: Seq<u8>| old(self).covered(p) implies self.covered(p) by {
                        if old(self).any_claims(p) {
                            let k = choose|k: int|
                                0 <= k < old(self).repos@.len() && #[trigger] old(
                                    self,
                                ).repos@[k].claims(p);
                            assert(self.repos@[k].claims(p));
                        }
                        if old(self).in_misses(p) {
                            let k = choose|k: int|
                                0 <= k < old(self).misses@.len() && #[trigger] old(
                                    self,
                                ).misses@[k]@ == p;
                            assert(self.misses@[k]@ == p);
                        }
                    }
                }
            },
        }
        proof {
            assert forall|p: Seq<u8>| #[trigger]
                self.attempts_on(p) == old(self).attempts_on(p) + (if p == pv {
                    1int
                } else {
                    0int
                }) by {}
            assert forall|p: Seq<u8>| #[trigger] self.attempts_on(p) == 1 implies self.covered(
                p,
            ) by {
                if p != pv {
                    assert(old(self).attempts_on(p) == 1);
                    assert(old(self).covered(p));
                }
            }
        }
    }

    /// Considers one candidate path during construction: a path already
    /// covered — recorded as a miss, by exact equality, or claimed by a
    /// repository — is skipped with the cache left untouched and no
    /// discovery attempted; any other path goes through discovery once,
    /// and exactly one of three things happens: the miss list grows by
    /// the path, a repository entry is appended for it, or one existing
    /// repository gains it as an extra path.
    pub fn add_path(&mut self, path: Vec<u8>)
        requires
            old(self).wf(),
        ensures
            final(self).wf(),
            final(self).covered(path@),
            !old(self).covered(path@) ==> (recorded_miss(*old(self), *final(self), path@)
                || added_repo(*old(self), *final(self), path@) || merged_into(
                *old(self),
                *final(self),
                path@,
            )),
            forall|k: int, p: Seq<u8>|
                0 <= k < old(self).repos@.len() && #[trigger] old(self).repos@[k].claims(p)
                    ==> k < final(self).repos@.len() && final(self).repos@[k].claims(p),
            forall|p: Seq<u8>| old(self).in_misses(p) ==> final(self).in_misses(p),
            forall|p: Seq<u8>| old(self).covered(p) ==> final(self).covered(p),
            forall|p: Seq<u8>| #[trigger]
                final(self).attempts_on(p) == old(self).attempts_on(p) + (if p == path@
                    && !old(self).covered(path@) {
                    1int
                } else {
                    0int
                }),
            old(self).covered(path@) ==> *final(self) == *old(self),
    {
        if contains_path(&self.misses, &path) {
            return;
        }
        if self.has_anything_for(&path) {
            return;
        }
        self.discover_into(path, &DiscoverMode::FromEnv);
    }

    /// Builds the cache for one listing operation.  An explicit
    /// repository location in `git_dir` (the environment's gitdir-style
    /// override) is opened first, strictly, and recorded as the
    /// first-priority repository — the head of the list, which lookups
    /// scan in order — or as a miss; then each candidate path is
    /// considered in order, per [`GitCache::add_path`].  Every input
    /// path ends up covered, no working directory appears twice, and no
    /// path's discovery runs more than once.
    pub fn from_paths(git_dir: Option<Vec<u8>>, paths: Vec<Vec<u8>>) -> (r: GitCache)
        ensures
            r.wf(),
            forall|i: int| 0 <= i < paths@.len() ==> r.covered(#[trigger] paths@[i]@),
            git_dir matches Some(g) ==> r.covered(g@),
            git_dir matches Some(g) ==> (r.in_misses(g@) || (r.repos@.len() > 0
                && r.repos@[0].claims(g@))),
    {
        let ghost gd = git_dir;
        let mut cache = GitCache::new();
        match git_dir {
            Some(g) => {
                let ghost gv = g@;
                let ghost pre = cache;
                cache.discover_into(g, &DiscoverMode::GitDirOverride);
                proof {
                    if recorded_miss(pre, cache, gv) {
                        assert(cache.misses@[0]@ == gv);
                        assert(cache.in_misses(gv));
                    } else if added_repo(pre, cache, gv) {
                        lemma_path_under_refl(gv);
                        assert(cache.repos@[0].claims(gv));
                    } else {
                        assert(merged_into(pre, cache, gv));
                        assert(false);
                    }
                }
            },
            None => {},
        }
        let mut i: usize = 0;
        while i < paths.len()
            invariant
                i <= paths@.len(),
                cache.wf(),
                forall|j: int| 0 <= j < i ==> cache.covered(#[trigger] paths@[j]@),
                gd matches Some(g) ==> cache.covered(g@),
                gd matches Some(g) ==> (cache.in_misses(g@) || (cache.repos@.len() > 0
                    && cache.repos@[0].claims(g@))),
            decreases paths@.len() - i,
        {
            let p = paths[i].clone();
            cache.add_path(p);
            i += 1;
        }
        cache
    }
}

/// Deduplication by working directory: in a well-formed cache, two
/// repository entries with the same working directory are the same
/// entry — candidate paths that resolve to one working directory share
/// one repository state machine.
pub proof fn lemma_unique_workdir(c: GitCache, i: int, j: int)
    requires
        c.wf(),
        0 <= i < c.repos@.len(),
        0 <= j < c.repos@.len(),
        c.repos@[i].workdir@ == c.repos@[j].workdir@,
    ensures
        i == j,
{
}

/// A path recorded as a miss is covered, so considering it again within
/// the same cache leaves the cache untouched and attempts no discovery
/// (see [`GitCache::add_path`]); and in a well-formed cache no path's
/// discovery has ever run more than once.
pub proof fn lemma_miss_never_retried(c: GitCache, p: Seq<u8>)
    requires
        c.wf(),
        c.in_misses(p),
    ensures
        c.covered(p),
        c.attempts_on(p) <= 1,
{
}

} // verus!
