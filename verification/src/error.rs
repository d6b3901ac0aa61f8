//! The error taxonomy of the lock: contention (`LockTaken`) is kept apart
//! from every other operating-system failure, so that a caller can react to
//! "someone else holds this lock" differently from a real operational error.

use vstd::prelude::*;

verus! {

/// The failure kinds of the filesystem operations that the lock protocol
/// performs, as plain values. The unverified rim that performs the actual
/// system calls translates each operating-system error into one of these
/// before the verified logic classifies it.
#[derive(Clone, Copy, Debug, PartialEq, Eq, Structural)]
pub enum IoErrorKind {
    /// The entity (file or directory) already exists.
    AlreadyExists,
    /// The entity was not found.
    NotFound,
    /// The operation lacked the permissions to complete.
    PermissionDenied,
    /// Any other operating-system failure (disk full, path too long, ...).
    Other,
}

/// The error returned by the creation protocol, distinguishing a held lock
/// from every other failure.
///
/// Without this distinction it would not be possible to tell whether an
/// `AlreadyExists` came from the lock file itself or from the parent
/// directory (for instance when the parent path already exists and is a
/// file): only the exclusive create of the lock file reports contention.
#[derive(Clone, Copy, Debug, PartialEq, Eq, Structural)]
#[non_exhaustive]
pub enum Error {
    /// A generic operating-system failure, carrying the underlying kind.
    Io(IoErrorKind),
    /// The lock is currently held by someone else.
    LockTaken,
}

impl Error {
    /// How a failure of the exclusive create is classified: an existing
    /// file there means the lock is held; anything else is a generic
    /// operating-system error.
    pub open spec fn classified(kind: IoErrorKind) -> Error {
        if kind is AlreadyExists {
            Error::LockTaken
        } else {
            Error::Io(kind)
        }
    }

    /// Classifies a failure of the exclusive create: `AlreadyExists` is
    /// contention, everything else a generic failure.
    pub fn from_io(e: IoErrorKind) -> (r: Error)
        ensures
            r == Error::classified(e),
    {
        match e {
            IoErrorKind::AlreadyExists => Error::LockTaken,
            _ => Error::Io(e),
        }
    }

    /// Get at the underlying failure kind; contention reads as
    /// `AlreadyExists`, the kind the operating system reported for it.
    pub fn into_inner(self) -> (r: IoErrorKind)
        ensures
            r == (match self {
                Error::Io(k) => k,
                Error::LockTaken => IoErrorKind::AlreadyExists,
            }),
    {
        match self {
            Error::Io(k) => k,
            Error::LockTaken => IoErrorKind::AlreadyExists,
        }
    }
}

} // verus!
