//! Tests of the path model, the flag classification, and the status
//! table aggregation, on values built directly.

use gitstatus::is_under;
use gitstatus::join_cwd;
use gitstatus::reorient;
use gitstatus::status::index_status;
use gitstatus::status::working_tree_status;
use gitstatus::status::STATUS_CONFLICTED;
use gitstatus::status::STATUS_IGNORED;
use gitstatus::status::STATUS_INDEX_DELETED;
use gitstatus::status::STATUS_INDEX_MODIFIED;
use gitstatus::status::STATUS_INDEX_NEW;
use gitstatus::status::STATUS_WT_DELETED;
use gitstatus::status::STATUS_WT_MODIFIED;
use gitstatus::status::STATUS_WT_NEW;
use gitstatus::GitStatus;
use gitstatus::PathStatus;
use gitstatus::StatusTable;

#[test]
fn path_nesting() {
    assert!(is_under(&b"/repo/a".to_vec(), &b"/repo".to_vec()));
    assert!(is_under(&b"/repo".to_vec(), &b"/repo".to_vec()));
    assert!(!is_under(&b"/repo2".to_vec(), &b"/repo".to_vec()));
    assert!(!is_under(&b"/repo".to_vec(), &b"/repo/a".to_vec()));
    assert!(is_under(&b"/x".to_vec(), &b"/".to_vec()));
}

#[test]
fn joining_paths() {
    assert_eq!(join_cwd(&b"/cwd".to_vec(), &b"rel".to_vec()), b"/cwd/rel".to_vec());
    assert_eq!(join_cwd(&b"/cwd/".to_vec(), &b"rel".to_vec()), b"/cwd/rel".to_vec());
    assert_eq!(join_cwd(&b"/cwd".to_vec(), &b"/abs".to_vec()), b"/abs".to_vec());
}

#[test]
fn reorient_prefers_resolved() {
    let joined = b"/cwd/lnk".to_vec();
    assert_eq!(reorient(&joined, &Some(b"/real/file".to_vec())), b"/real/file".to_vec());
    assert_eq!(reorient(&joined, &None), joined);
}

#[test]
fn staged_priority_new_beats_modified() {
    let s = STATUS_INDEX_NEW | STATUS_INDEX_MODIFIED;
    assert_eq!(index_status(s), GitStatus::New);
}

#[test]
fn staged_ignores_working_tree_flags() {
    assert_eq!(index_status(STATUS_WT_NEW | STATUS_IGNORED), GitStatus::NotModified);
    assert_eq!(index_status(STATUS_INDEX_DELETED | STATUS_WT_NEW), GitStatus::Deleted);
}

#[test]
fn unstaged_priority_order() {
    assert_eq!(working_tree_status(STATUS_WT_MODIFIED | STATUS_WT_DELETED), GitStatus::Modified);
    assert_eq!(working_tree_status(STATUS_IGNORED | STATUS_CONFLICTED), GitStatus::Ignored);
    assert_eq!(working_tree_status(STATUS_CONFLICTED), GitStatus::Conflicted);
    assert_eq!(working_tree_status(0), GitStatus::NotModified);
    assert_eq!(working_tree_status(STATUS_INDEX_NEW), GitStatus::NotModified);
}

#[test]
fn ignore_propagates_to_descendants() {
    let table = StatusTable {
        entries: vec![PathStatus { path: b"/repo".to_vec(), flags: STATUS_IGNORED }],
    };
    let f = table.file_status(&b"/repo/build/x".to_vec());
    assert_eq!(f.unstaged, GitStatus::Ignored);
    assert_eq!(f.staged, GitStatus::NotModified);
    let d = table.dir_status(&b"/repo/build".to_vec());
    assert_eq!(d.unstaged, GitStatus::Ignored);
}

#[test]
fn directory_aggregates_children_but_file_matches_exactly() {
    let table = StatusTable {
        entries: vec![PathStatus { path: b"/repo/a/b.txt".to_vec(), flags: STATUS_WT_MODIFIED }],
    };
    let d = table.dir_status(&b"/repo/a".to_vec());
    assert_eq!(d.unstaged, GitStatus::Modified);
    let f = table.file_status(&b"/repo/a".to_vec());
    assert_eq!(f.unstaged, GitStatus::NotModified);
    assert_eq!(f.staged, GitStatus::NotModified);
}

#[test]
fn ignored_entry_needs_exact_flag_set() {
    // A flag set that merely contains the ignored bit, next to others, is
    // not an ignoring ancestor: it matches like any other entry.
    let table = StatusTable {
        entries: vec![
            PathStatus { path: b"/repo".to_vec(), flags: STATUS_IGNORED | STATUS_WT_NEW },
        ],
    };
    let f = table.file_status(&b"/repo/build/x".to_vec());
    assert_eq!(f.unstaged, GitStatus::NotModified);
}

#[test]
fn metadata_directory_always_ignored() {
    let table = StatusTable::from_entries(&b"/repo".to_vec(), &vec![]);
    let f = table.file_status(&b"/repo/.git".to_vec());
    assert_eq!(f.unstaged, GitStatus::Ignored);
    assert_eq!(f.staged, GitStatus::NotModified);
    let nested = table.file_status(&b"/repo/.git/config".to_vec());
    assert_eq!(nested.unstaged, GitStatus::Ignored);
}

#[test]
fn from_entries_joins_workdir() {
    let raw = vec![PathStatus { path: b"x.txt".to_vec(), flags: STATUS_WT_NEW }];
    let table = StatusTable::from_entries(&b"/repo/".to_vec(), &raw);
    assert_eq!(table.entries.len(), 2);
    assert_eq!(table.entries[0].path, b"/repo/x.txt".to_vec());
    assert_eq!(table.entries[1].path, b"/repo/.git".to_vec());
    let f = table.file_status(&b"/repo/x.txt".to_vec());
    assert_eq!(f.unstaged, GitStatus::New);
    let d = table.dir_status(&b"/repo".to_vec());
    assert_eq!(d.unstaged, GitStatus::New);
}

#[test]
fn engine_reported_directory_entries_lose_their_separator() {
    // The engine reports an unrecursed directory with one trailing
    // separator; the table stores it in canonical form, so the ignore
    // rule still covers the directory and everything below it.
    let raw = vec![PathStatus { path: b"build/".to_vec(), flags: STATUS_IGNORED }];
    let table = StatusTable::from_entries(&b"/repo/".to_vec(), &raw);
    assert_eq!(table.entries[0].path, b"/repo/build".to_vec());
    let f = table.file_status(&b"/repo/build/x".to_vec());
    assert_eq!(f.unstaged, GitStatus::Ignored);
    let d = table.dir_status(&b"/repo/build".to_vec());
    assert_eq!(d.unstaged, GitStatus::Ignored);
    let within = table.file_status(&b"/repo/build".to_vec());
    assert_eq!(within.unstaged, GitStatus::Ignored);
    let sibling = table.file_status(&b"/repo/builder".to_vec());
    assert_eq!(sibling.unstaged, GitStatus::NotModified);
}

#[test]
fn untracked_directory_entry_matches_its_own_path() {
    let raw = vec![PathStatus { path: b"junk/".to_vec(), flags: STATUS_WT_NEW }];
    let table = StatusTable::from_entries(&b"/repo/".to_vec(), &raw);
    let f = table.file_status(&b"/repo/junk".to_vec());
    assert_eq!(f.unstaged, GitStatus::New);
    let d = table.dir_status(&b"/repo".to_vec());
    assert_eq!(d.unstaged, GitStatus::New);
}

#[test]
fn staged_and_unstaged_are_independent() {
    let table = StatusTable {
        entries: vec![
            PathStatus {
                path: b"/repo/f".to_vec(),
                flags: STATUS_INDEX_MODIFIED | STATUS_WT_DELETED,
            },
        ],
    };
    let f = table.file_status(&b"/repo/f".to_vec());
    assert_eq!(f.staged, GitStatus::Modified);
    assert_eq!(f.unstaged, GitStatus::Deleted);
}
