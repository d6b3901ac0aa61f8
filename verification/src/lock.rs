//! The lockfile lifecycle: a handle that is created by the exclusive,
//! atomic creation of a file and released — at most once — by deleting it.
//!
//! The verified object tracks the path and whether the lock is still held.
//! The filesystem work itself (creating the parent directories, the
//! exclusive create, removing the file) happens outside the verified
//! library; each outcome reaches the transitions here as a plain
//! `Result<(), IoErrorKind>`, and the transitions decide what it means:
//! which error the caller sees, whether a lockfile object comes to exist,
//! and whether the backing file is still to be removed.

use vstd::prelude::*;

use crate::error::Error;
use crate::error::IoErrorKind;

verus! {

/// The mathematical state of a lockfile: the path it was created at and
/// whether the lock is still held (handle open, file on disk).
#[verifier::ext_equal]
pub ghost struct LockView {
    /// The path supplied at creation, unmodified.
    pub path: Seq<char>,
    /// Whether the lock is still held: true from successful creation until
    /// the release transition runs.
    pub held: bool,
}

impl LockView {
    /// The state after the release transition: the path is unchanged and
    /// the lock is no longer held.
    pub open spec fn released(self) -> LockView {
        LockView { path: self.path, held: false }
    }
}

/// A lockfile that cleans up after itself.
///
/// A value of this type stands for a lock created by the exclusive creation
/// of a file at `path`. It is held until the release transition runs, which
/// the unverified rim drives both from an explicit release and from the
/// destructor; the transition fires at most once per object, so the backing
/// file is deleted at most once.
#[derive(Debug)]
pub struct Lockfile {
    path: String,
    held: bool,
}

impl View for Lockfile {
    type V = LockView;

    closed spec fn view(&self) -> LockView {
        LockView { path: self.path@, held: self.held }
    }
}

impl Lockfile {
    /// Interprets the outcome of ensuring the parent directory, the first
    /// step of the creation protocol: success lets creation proceed, and
    /// any failure — `AlreadyExists` included, since an existing *parent*
    /// that turns out to be a file is not a held lock — aborts it with a
    /// generic I/O error, never with `LockTaken`.
    pub fn parent_ready(outcome: Result<(), IoErrorKind>) -> (r: Result<(), Error>)
        ensures
            (r is Ok) <==> (outcome is Ok),
            outcome matches Err(k) ==> r == Err::<(), Error>(Error::Io(k)),
    {
        match outcome {
            Ok(()) => Ok(()),
            Err(k) => Err(Error::Io(k)),
        }
    }

    /// Concludes the creation protocol from the outcome of the exclusive
    /// ("create new, fail if exists") create of the lock file at `path`.
    ///
    /// On success the returned object holds the lock and records `path`
    /// unmodified. An `AlreadyExists` failure means someone else holds the
    /// lock and is reported as `LockTaken`; every other failure is a
    /// generic I/O error. No lockfile object exists on any failure path.
    ///
    /// The step before this one must have ensured that the parent directory
    /// of `path` exists; a path without a parent component is a misuse of
    /// the protocol that the caller must reject loudly before reaching the
    /// filesystem.
    pub fn create(path: String, outcome: Result<(), IoErrorKind>) -> (r: Result<Lockfile, Error>)
        ensures
            (outcome is Ok) ==> (r matches Ok(l) && l@.path == path@ && l@.held),
            outcome matches Err(k) ==> r == Err::<Lockfile, Error>(Error::classified(k)),
    {
        match outcome {
            Ok(()) => Ok(Lockfile { path, held: true }),
            Err(k) => Err(Error::from_io(k)),
        }
    }

    /// Get the path of the lockfile: exactly the path supplied at creation,
    /// unmodified, without touching the lock's state.
    pub fn path(&self) -> (r: &String)
        ensures
            r@ == self@.path,
    {
        &self.path
    }

    /// Whether the lock is still held, that is, whether the release
    /// transition has not yet run on this object.
    pub fn is_held(&self) -> (r: bool)
        ensures
            r == self@.held,
    {
        self.held
    }

    /// The release transition, shared by the explicit release and the
    /// destructor path: marks the object released and returns whether the
    /// lock was still held — that is, whether the backing file is now to be
    /// closed and removed. Once it has run, every further call returns
    /// false and changes nothing, so the removal is attempted at most once
    /// per object; and it has no precondition, so it cannot fail or panic.
    pub fn release(&mut self) -> (r: bool)
        ensures
            r == old(self)@.held,
            final(self)@ == old(self)@.released(),
    {
        let was_held = self.held;
        self.held = false;
        was_held
    }
}

/// Release happens at most once per object: after the release transition
/// the lock is no longer held, and running the transition again — as the
/// destructor path does after an explicit release — leaves the state
/// unchanged and reports that there is nothing left to remove.
pub proof fn lemma_release_at_most_once(v: LockView)
    ensures
        !v.released().held,
        v.released().released() == v.released(),
{
    assert(v.released().released() =~= v.released());
}

} // verus!
