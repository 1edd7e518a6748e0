//! Tests through the real query engine, on repositories created under
//! the temporary directory.

use gitstatus::summary::classify_entries;
use gitstatus::status::STATUS_IGNORED;
use gitstatus::status::STATUS_WT_NEW;
use gitstatus::DiscoverMode;
use gitstatus::GitCache;
use gitstatus::GitRepo;
use gitstatus::GitStatus;
use gitstatus::PathStatus;
use gitstatus::SubdirGitRepo;
use gitstatus::SubdirGitRepoStatus;

fn bytes(s: &str) -> Vec<u8> {
    s.as_bytes().to_vec()
}

#[test]
fn discovery_miss_returns_the_path() {
    let p = bytes("/tmp/gitstatus_absent_path");
    let r = GitRepo::discover(p.clone(), &DiscoverMode::FromEnv);
    match r {
        Ok(_) => panic!("no repository should cover the temporary scratch path"),
        Err(miss) => assert_eq!(miss, p),
    }
}

#[test]
fn repeated_miss_is_recorded_once() {
    let p = bytes("/tmp/gitstatus_absent_path");
    let cache = GitCache::from_paths(None, vec![p.clone(), p.clone(), p.clone()]);
    assert_eq!(cache.misses.len(), 1);
    assert_eq!(cache.repos.len(), 0);
    assert!(!cache.has_anything_for(&p));
    let g = cache.get(&p, &p, false);
    assert_eq!(g.staged, GitStatus::NotModified);
    assert_eq!(g.unstaged, GitStatus::NotModified);
}

#[test]
fn discovered_repo_claims_descendants() {
    let dir = "/tmp/gitstatus_repo_claims";
    git2::Repository::init(dir).unwrap();
    let cache = GitCache::from_paths(None, vec![bytes(dir)]);
    assert_eq!(cache.repos.len(), 1);
    assert!(cache.has_anything_for(&bytes(dir)));
    assert!(cache.has_anything_for(&bytes("/tmp/gitstatus_repo_claims/deep/file.txt")));
    assert!(!cache.has_anything_for(&bytes("/tmp/gitstatus_repo_claims2")));
    assert!(!cache.has_anything_for(&bytes("/tmp")));
}

#[test]
fn clean_repo_reports_not_modified_and_ignored_metadata() {
    let dir = "/tmp/gitstatus_repo_clean";
    git2::Repository::init(dir).unwrap();
    let cache = GitCache::from_paths(None, vec![bytes(dir)]);
    let q = bytes("/tmp/gitstatus_repo_clean/absent.txt");
    let g = cache.get(&q, &q, false);
    assert_eq!(g.staged, GitStatus::NotModified);
    assert_eq!(g.unstaged, GitStatus::NotModified);
    let m = bytes("/tmp/gitstatus_repo_clean/.git");
    let gm = cache.get(&m, &m, false);
    assert_eq!(gm.unstaged, GitStatus::Ignored);
    assert_eq!(gm.staged, GitStatus::NotModified);
    let inner = bytes("/tmp/gitstatus_repo_clean/.git/config");
    let gi = cache.get(&inner, &inner, false);
    assert_eq!(gi.unstaged, GitStatus::Ignored);
}

#[test]
fn repeated_lookups_answer_alike() {
    let dir = "/tmp/gitstatus_repo_repeat";
    git2::Repository::init(dir).unwrap();
    let cache = GitCache::from_paths(None, vec![bytes(dir)]);
    let m = bytes("/tmp/gitstatus_repo_repeat/.git");
    let first = cache.get(&m, &m, false);
    let second = cache.get(&m, &m, false);
    let third = cache.get(&m, &m, false);
    assert_eq!(first, second);
    assert_eq!(second, third);
    assert_eq!(first.unstaged, GitStatus::Ignored);
}

#[test]
fn paths_with_one_workdir_share_one_entry() {
    let dir = "/tmp/gitstatus_repo_merge";
    git2::Repository::init(dir).unwrap();
    let other = bytes("/tmp//gitstatus_repo_merge");
    let cache = GitCache::from_paths(None, vec![bytes(dir), other.clone()]);
    assert_eq!(cache.repos.len(), 1);
    assert_eq!(cache.misses.len(), 0);
    assert!(cache.has_anything_for(&bytes(dir)));
    assert!(cache.has_anything_for(&other));
}

#[test]
fn gitdir_override_comes_first_and_deduplicates() {
    let dir = "/tmp/gitstatus_repo_override";
    git2::Repository::init(dir).unwrap();
    let gitdir = bytes("/tmp/gitstatus_repo_override/.git");
    let cache = GitCache::from_paths(Some(gitdir.clone()), vec![bytes(dir)]);
    assert_eq!(cache.repos.len(), 1);
    assert!(cache.has_anything_for(&gitdir));
    assert!(cache.has_anything_for(&bytes(dir)));
    // The override repository is the first-priority entry.
    assert!(cache.repos[0].has_path(&gitdir));
}

#[test]
fn directory_entry_reported_with_separator_still_matches() {
    let outer = "/tmp/gitstatus_repo_outer";
    git2::Repository::init(outer).unwrap();
    // A nested repository makes `sub` a directory the engine reports as
    // a single unrecursed entry with a trailing separator — and
    // classifies as ignored, since it is an embedded repository.
    git2::Repository::init("/tmp/gitstatus_repo_outer/sub").unwrap();
    let cache = GitCache::from_paths(None, vec![bytes(outer)]);
    let q = bytes("/tmp/gitstatus_repo_outer/sub");
    let g = cache.get(&q, &q, false);
    assert_eq!(g.unstaged, GitStatus::Ignored);
    // The ignore propagates downward from the reported directory entry.
    let nested = bytes("/tmp/gitstatus_repo_outer/sub/inner.txt");
    let gn = cache.get(&nested, &nested, false);
    assert_eq!(gn.unstaged, GitStatus::Ignored);
    // It does not propagate upward to the repository root.
    let d = bytes(outer);
    let agg = cache.get(&d, &d, true);
    assert_eq!(agg.unstaged, GitStatus::NotModified);
}

#[test]
fn staged_entry_reports_new_and_aggregates_upward() {
    let dir = "/tmp/gitstatus_repo_staged";
    let repo = git2::Repository::init(dir).unwrap();
    let mut index = repo.index().unwrap();
    let entry = git2::IndexEntry {
        ctime: git2::IndexTime::new(0, 0),
        mtime: git2::IndexTime::new(0, 0),
        dev: 0,
        ino: 0,
        mode: 0o100644,
        uid: 0,
        gid: 0,
        file_size: 0,
        id: git2::Oid::zero(),
        flags: 0,
        flags_extended: 0,
        path: b"f.txt".to_vec(),
    };
    index.add_frombuffer(&entry, b"contents\n").unwrap();
    index.write().unwrap();
    let cache = GitCache::from_paths(None, vec![bytes(dir)]);
    let q = bytes("/tmp/gitstatus_repo_staged/f.txt");
    let g = cache.get(&q, &q, false);
    assert_eq!(g.staged, GitStatus::New);
    assert_eq!(g.unstaged, GitStatus::Deleted);
    let d = bytes(dir);
    let agg = cache.get(&d, &d, true);
    assert_eq!(agg.staged, GitStatus::New);
}

#[test]
fn summary_of_clean_repo() {
    let dir = "/tmp/gitstatus_repo_summary";
    let repo = git2::Repository::init(dir).unwrap();
    let s = SubdirGitRepo::from_path(&bytes(dir), true);
    assert_eq!(s.status, Some(SubdirGitRepoStatus::GitClean));
    if repo.head().is_err() {
        // No commit yet: the branch is unborn and reads as absent.
        assert_eq!(s.branch, None);
        let tb = repo.treebuilder(None).unwrap();
        let tree_id = tb.write().unwrap();
        let tree = repo.find_tree(tree_id).unwrap();
        let sig = git2::Signature::now("tester", "tester@localhost").unwrap();
        repo.commit(Some("HEAD"), &sig, &sig, "empty", &tree, &[]).unwrap();
    }
    let with_branch = SubdirGitRepo::from_path(&bytes(dir), true);
    assert_eq!(with_branch.status, Some(SubdirGitRepoStatus::GitClean));
    assert!(with_branch.branch.is_some());
    let no_status = SubdirGitRepo::from_path(&bytes(dir), false);
    assert_eq!(no_status.status, None);
}

#[test]
fn summary_of_dirty_repo() {
    let dir = "/tmp/gitstatus_repo_summary_dirty";
    let repo = git2::Repository::init(dir).unwrap();
    let mut index = repo.index().unwrap();
    let entry = git2::IndexEntry {
        ctime: git2::IndexTime::new(0, 0),
        mtime: git2::IndexTime::new(0, 0),
        dev: 0,
        ino: 0,
        mode: 0o100644,
        uid: 0,
        gid: 0,
        file_size: 0,
        id: git2::Oid::zero(),
        flags: 0,
        flags_extended: 0,
        path: b"g.txt".to_vec(),
    };
    index.add_frombuffer(&entry, b"contents\n").unwrap();
    index.write().unwrap();
    let s = SubdirGitRepo::from_path(&bytes(dir), true);
    assert_eq!(s.status, Some(SubdirGitRepoStatus::GitDirty));
}

#[test]
fn summary_of_plain_directory() {
    let s = SubdirGitRepo::from_path(&bytes("/tmp"), true);
    assert_eq!(s.status, Some(SubdirGitRepoStatus::NoRepo));
    assert_eq!(s.branch, None);
    let quiet = SubdirGitRepo::from_path(&bytes("/tmp"), false);
    assert_eq!(quiet.status, None);
    assert_eq!(quiet.branch, None);
}

#[test]
fn classification_of_walk_entries() {
    assert_eq!(classify_entries(&vec![]), SubdirGitRepoStatus::GitClean);
    let ignored_only = vec![PathStatus { path: bytes("a"), flags: STATUS_IGNORED }];
    assert_eq!(classify_entries(&ignored_only), SubdirGitRepoStatus::GitClean);
    let with_new = vec![
        PathStatus { path: bytes("a"), flags: STATUS_IGNORED },
        PathStatus { path: bytes("b"), flags: STATUS_WT_NEW },
    ];
    assert_eq!(classify_entries(&with_new), SubdirGitRepoStatus::GitDirty);
}
