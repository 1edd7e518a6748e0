//! The frozen status table of one repository, and the aggregation that
//! answers file and directory queries from it.
//!
//! A table is the engine's flat, unordered list of (absolute path, raw
//! flag set) pairs, plus one synthetic entry marking the repository's own
//! metadata directory ignored.  A query unions the flag sets of every
//! contributing entry and classifies the union.  Contribution is
//! asymmetric: an entry whose flag set is exactly the ignored flag
//! contributes to every query at or below its path (ignore propagates
//! parent to child), while any other entry contributes to a file query
//! only on exact match and to a directory query whenever the entry lies
//! at or below the queried path (other statuses propagate child to
//! parent).

use vstd::prelude::*;

use crate::path::bytes_eq;
use crate::path::is_under;
use crate::path::join_cwd;
use crate::path::join_spec;
use crate::path::path_under;
use crate::path::strip_sep_spec;
use crate::path::strip_trailing_sep;
use crate::status::index_status;
use crate::status::index_status_spec;
use crate::status::working_tree_status;
use crate::status::working_tree_status_spec;
use crate::status::Git;
use crate::status::GitStatus;
use crate::status::STATUS_IGNORED;

verus! {

/// One status entry: a path and the raw flag set the engine reported for
/// it.
#[derive(Debug)]
pub struct PathStatus {
    /// The path the flags apply to, as bytes.
    pub path: Vec<u8>,
    /// The raw status flag set.
    pub flags: u32,
}

/// The name of the repository metadata directory, `.git`, as bytes.
pub open spec fn dot_git() -> Seq<u8> {
    seq![46u8, 103u8, 105u8, 116u8]
}

/// Whether `e` contributes to the aggregate flag set of a query for `q`.
pub open spec fn entry_contributes(e: PathStatus, q: Seq<u8>, dir_mode: bool) -> bool {
    if e.flags == STATUS_IGNORED {
        path_under(q, e.path@)
    } else if dir_mode {
        path_under(e.path@, q)
    } else {
        e.path@ == q
    }
}

/// The union (bitwise or) of the flag sets of every entry that
/// contributes to a query for `q`.
pub open spec fn agg_flags(entries: Seq<PathStatus>, q: Seq<u8>, dir_mode: bool) -> u32
    decreases entries.len(),
{
    if entries.len() == 0 {
        0u32
    } else {
        agg_flags(entries.drop_last(), q, dir_mode) | (if entry_contributes(
            entries.last(),
            q,
            dir_mode,
        ) {
            entries.last().flags
        } else {
            0u32
        })
    }
}

/// The computed, queried-once status snapshot of one repository.
pub struct StatusTable {
    /// The status entries, keyed by absolute path.
    pub entries: Vec<PathStatus>,
}

impl StatusTable {
    /// The table of a repository whose status walk failed: no entries, so
    /// every path reports NotModified on both sides.
    pub fn empty() -> (r: Self)
        ensures
            r.entries@.len() == 0,
    {
        StatusTable { entries: Vec::new() }
    }

    /// Freezes the engine's raw result into a table: each reported path,
    /// which is relative to the working directory, is joined onto
    /// `workdir` and stripped of the one trailing separator the engine
    /// leaves on an unrecursed directory entry, and one synthetic entry
    /// marking the repository's metadata directory ignored is appended —
    /// listings exclude that directory by convention, and the engine
    /// does not necessarily report it.
    pub fn from_entries(workdir: &Vec<u8>, raw: &Vec<PathStatus>) -> (r: Self)
        ensures
            r.entries@.len() == raw@.len() + 1,
            forall|i: int|
                0 <= i < raw@.len() ==> #[trigger] r.entries@[i].path@ == strip_sep_spec(
                    join_spec(workdir@, raw@[i].path@),
                ) && r.entries@[i].flags == raw@[i].flags,
            r.entries@[raw@.len() as int].path@ == join_spec(workdir@, dot_git()),
            r.entries@[raw@.len() as int].flags == STATUS_IGNORED,
    {
        let mut entries: Vec<PathStatus> = Vec::new();
        let mut i: usize = 0;
        while i < raw.len()
            invariant
                i <= raw@.len(),
                entries@.len() == i,
                forall|j: int|
                    0 <= j < i ==> #[trigger] entries@[j].path@ == strip_sep_spec(
                        join_spec(workdir@, raw@[j].path@),
                    ) && entries@[j].flags == raw@[j].flags,
            decreases raw@.len() - i,
        {
            let p = strip_trailing_sep(join_cwd(workdir, &raw[i].path));
            entries.push(PathStatus { path: p, flags: raw[i].flags });
            i += 1;
        }
        let mut g: Vec<u8> = Vec::new();
        g.push(46);
        g.push(103);
        g.push(105);
        g.push(116);
        proof {
            assert(g@ =~= dot_git());
        }
        let p = join_cwd(workdir, &g);
        entries.push(PathStatus { path: p, flags: STATUS_IGNORED });
        StatusTable { entries }
    }

    /// Unions the flag sets of the entries that contribute to a query for
    /// `path`, per [`agg_flags`].
    fn aggregate(&self, path: &Vec<u8>, dir_mode: bool) -> (r: u32)
        ensures
            r == agg_flags(self.entries@, path@, dir_mode),
    {
        let mut acc: u32 = 0;
        let mut i: usize = 0;
        while i < self.entries.len()
            invariant
                i <= self.entries@.len(),
                acc == agg_flags(self.entries@.subrange(0, i as int), path@, dir_mode),
            decreases self.entries@.len() - i,
        {
            let e = &self.entries[i];
            let hit = if e.flags == STATUS_IGNORED {
                is_under(path, &e.path)
            } else if dir_mode {
                is_under(&e.path, path)
            } else {
                bytes_eq(&e.path, path)
            };
            proof {
                assert(self.entries@.subrange(0, i + 1).drop_last() =~= self.entries@.subrange(
                    0,
                    i as int,
                ));
                assert(self.entries@.subrange(0, i + 1).last() == self.entries@[i as int]);
            }
            if hit {
                acc = acc | e.flags;
            } else {
                proof {
                    assert(acc | 0u32 == acc) by (bit_vector);
                }
            }
            i += 1;
        }
        proof {
            assert(self.entries@.subrange(0, self.entries@.len() as int) =~= self.entries@);
        }
        acc
    }

    /// The status of exactly the file `path` (which must already be in
    /// canonical form): the classification of the union of the flag sets
    /// of every entry matching `path` exactly, plus every ignored
    /// ancestor.
    pub fn file_status(&self, path: &Vec<u8>) -> (r: Git)
        ensures
            r.staged == index_status_spec(agg_flags(self.entries@, path@, false)),
            r.unstaged == working_tree_status_spec(agg_flags(self.entries@, path@, false)),
    {
        let s = self.aggregate(path, false);
        Git { staged: index_status(s), unstaged: working_tree_status(s) }
    }

    /// The aggregate status of the directory `path` (already in canonical
    /// form): the classification of the union of the flag sets of every
    /// entry at or below `path`, plus every ignored ancestor.
    pub fn dir_status(&self, path: &Vec<u8>) -> (r: Git)
        ensures
            r.staged == index_status_spec(agg_flags(self.entries@, path@, true)),
            r.unstaged == working_tree_status_spec(agg_flags(self.entries@, path@, true)),
    {
        let s = self.aggregate(path, true);
        Git { staged: index_status(s), unstaged: working_tree_status(s) }
    }

    /// The file or the directory status of `path`, by `prefix_lookup`.
    pub fn status(&self, path: &Vec<u8>, prefix_lookup: bool) -> (r: Git)
        ensures
            r.staged == index_status_spec(agg_flags(self.entries@, path@, prefix_lookup)),
            r.unstaged == working_tree_status_spec(agg_flags(self.entries@, path@, prefix_lookup)),
    {
        if prefix_lookup {
            self.dir_status(path)
        } else {
            self.file_status(path)
        }
    }
}

/// If no entry contributes to a query, its aggregate flag set is empty.
pub proof fn lemma_agg_none(entries: Seq<PathStatus>, q: Seq<u8>, dir_mode: bool)
    requires
        forall|i: int| 0 <= i < entries.len() ==> !entry_contributes(#[trigger] entries[i], q, dir_mode),
    ensures
        agg_flags(entries, q, dir_mode) == 0,
    decreases entries.len(),
{
    if entries.len() > 0 {
        assert(forall|i: int|
            0 <= i < entries.len() - 1 ==> entries.drop_last()[i] == #[trigger] entries[i]);
        lemma_agg_none(entries.drop_last(), q, dir_mode);
        assert(entries.last() == entries[entries.len() - 1]);
        assert(0u32 | 0u32 == 0u32) by (bit_vector);
    }
}

/// Every contributing entry's flags survive into the aggregate flag set.
pub proof fn lemma_agg_includes(entries: Seq<PathStatus>, q: Seq<u8>, dir_mode: bool, i: int)
    requires
        0 <= i < entries.len(),
        entry_contributes(entries[i], q, dir_mode),
    ensures
        agg_flags(entries, q, dir_mode) & entries[i].flags == entries[i].flags,
    decreases entries.len(),
{
    let a = agg_flags(entries.drop_last(), q, dir_mode);
    let f = entries[i].flags;
    if i == entries.len() - 1 {
        let c = entries.last().flags;
        assert((a | c) & c == c) by (bit_vector);
    } else {
        lemma_agg_includes(entries.drop_last(), q, dir_mode, i);
        let c = if entry_contributes(entries.last(), q, dir_mode) {
            entries.last().flags
        } else {
            0u32
        };
        assert(a & f == f ==> (a | c) & f == f) by (bit_vector);
    }
}

/// Ignore propagation: an entry whose flag set is exactly the ignored
/// flag marks every path at or below its own as ignored — the aggregate
/// flag set of any such query carries the ignored flag.
pub proof fn lemma_ignore_propagates(entries: Seq<PathStatus>, q: Seq<u8>, dir_mode: bool, i: int)
    requires
        0 <= i < entries.len(),
        entries[i].flags == STATUS_IGNORED,
        path_under(q, entries[i].path@),
    ensures
        agg_flags(entries, q, dir_mode) & STATUS_IGNORED == STATUS_IGNORED,
{
    lemma_agg_includes(entries, q, dir_mode, i);
}

/// The metadata-directory rule: when the last entry of a table is the
/// synthetic ignored entry covering the queried path, and the engine's
/// own entries leave that path untouched, the query reports
/// unstaged-Ignored and staged-NotModified.
pub proof fn lemma_metadata_ignored(entries: Seq<PathStatus>, q: Seq<u8>, dir_mode: bool)
    requires
        entries.len() > 0,
        entries.last().flags == STATUS_IGNORED,
        path_under(q, entries.last().path@),
        forall|i: int|
            0 <= i < entries.len() - 1 ==> !entry_contributes(#[trigger] entries[i], q, dir_mode),
    ensures
        working_tree_status_spec(agg_flags(entries, q, dir_mode)) == GitStatus::Ignored,
        index_status_spec(agg_flags(entries, q, dir_mode)) == GitStatus::NotModified,
{
    lemma_agg_none(entries.drop_last(), q, dir_mode);
    assert(entry_contributes(entries.last(), q, dir_mode));
    assert(0u32 | 16384u32 == 16384u32) by (bit_vector);
    assert(agg_flags(entries, q, dir_mode) == STATUS_IGNORED);
    assert(16384u32 & 128u32 == 0 && 16384u32 & 256u32 == 0 && 16384u32 & 512u32 == 0
        && 16384u32 & 2048u32 == 0 && 16384u32 & 1024u32 == 0 && 16384u32 & 16384u32 != 0)
        by (bit_vector);
    assert(16384u32 & 1u32 == 0 && 16384u32 & 2u32 == 0 && 16384u32 & 4u32 == 0 && 16384u32
        & 8u32 == 0 && 16384u32 & 16u32 == 0) by (bit_vector);
}

} // verus!
