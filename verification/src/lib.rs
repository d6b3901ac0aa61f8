//! A lockfile marks a location in the filesystem as locked.
//!
//! A lock is conceptually created when the file is created, and released when
//! it is deleted. This crate implements the *existence-based* design: the
//! exclusive, atomic creation of the file is the lock; no operating-system
//! advisory lock is taken on the handle. If the file is already present,
//! creation fails with the distinguished [`Error::LockTaken`].
//!
//! The crate verifies the lock's lifecycle: how each filesystem outcome is
//! classified, that a successfully created lock records the supplied path
//! unchanged and counts as held, and that release happens at most once per
//! object, on the explicit path as well as on the destructor path. The
//! filesystem operations themselves (creating directories, the exclusive
//! create, removing the file) are performed by an unverified rim, which
//! feeds their outcomes to the verified transitions as plain values.

mod error;
mod lock;

pub use error::Error;
pub use error::IoErrorKind;
pub use lock::LockView;
pub use lock::Lockfile;
pub use lock::lemma_release_at_most_once;
