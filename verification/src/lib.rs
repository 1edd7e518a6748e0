//! Version-control status for the files and directories seen during one
//! directory listing.
//!
//! The crate discovers the repositories that cover a batch of candidate
//! paths, deduplicates them by working directory, computes each
//! repository's status table at most once (also under concurrent
//! lookups), and aggregates the flat list of per-path status flags into
//! per-file and per-directory classifications.  Paths are handled as
//! plain byte strings; the caller canonicalizes them (see [`reorient`])
//! because the query engine always reports absolute, workdir-rooted
//! paths.  At the engine boundary paths cross as UTF-8: a repository
//! location or working directory that cannot be rendered as UTF-8 is
//! converted lossily and in practice degrades to a miss.

pub mod cache;
pub mod engine;
pub mod path;
pub mod status;
pub mod summary;
pub mod table;

pub use cache::GitCache;
pub use cache::GitRepo;
pub use engine::DiscoverMode;
pub use path::is_under;
pub use path::join_cwd;
pub use path::reorient;
pub use status::Git;
pub use status::GitStatus;
pub use summary::SubdirGitRepo;
pub use summary::SubdirGitRepoStatus;
pub use table::PathStatus;
pub use table::StatusTable;
