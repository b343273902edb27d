//! Handles to a temporary directory.
//!
//! A directory handle holds no open OS handle: it is a shared reference to
//! the directory's core, the record of the path and the ownership. Releasing the last reference to an owned directory asks for
//! the removal of the directory and of everything beneath it.
use std::sync::Arc;
use vstd::prelude::*;

use crate::errors::Error;
use crate::placement::Placement;
use crate::{take_if_last, Ownership};

verus! {

/// What the filesystem must do after a directory handle has been released.
pub enum DirTeardown {
    /// Other handles still refer to the directory: nothing is to be done.
    Shared,
    /// The last reference to a borrowed directory is gone: it is left as it is.
    Keep,
    /// The last reference to an owned directory is gone: the directory and
    /// everything beneath it are to be removed.
    RemoveAll(String),
}

/// Whether `t` is the teardown of the last reference to a directory at
/// `path` with the given ownership.
pub open spec fn is_last_dir_teardown(t: DirTeardown, ownership: Ownership, path: Seq<char>) -> bool {
    match t {
        DirTeardown::Shared => false,
        DirTeardown::Keep => ownership is Borrowed,
        DirTeardown::RemoveAll(p) => ownership is Owned && p@ == path,
    }
}

impl DirTeardown {
    /// The teardown owed once a reference to a directory's record has been
    /// given up: `last` holds the record when that reference was the last one.
    pub fn after_release(last: Option<TempDirCore>) -> (r: DirTeardown)
        ensures
            last is None ==> r is Shared,
            last matches Some(c) ==> is_last_dir_teardown(r, c.spec_ownership(), c.spec_path()),
    {
        match last {
            Some(core) => core.teardown(),
            None => DirTeardown::Shared,
        }
    }

    /// Whether this teardown removes the directory at `path` from disk.
    pub open spec fn spec_removes(&self, path: Seq<char>) -> bool {
        self matches DirTeardown::RemoveAll(p) && p@ == path
    }

    /// Whether this teardown removes anything from disk.
    pub fn removes(&self) -> (r: bool)
        ensures
            r == self is RemoveAll,
    {
        match self {
            DirTeardown::RemoveAll(_) => true,
            _ => false,
        }
    }
}

/// The shared record of one temporary directory.
pub struct TempDirCore {
    path: String,
    ownership: Ownership,
}

impl TempDirCore {
    pub closed spec fn spec_path(&self) -> Seq<char> {
        self.path@
    }

    pub closed spec fn spec_ownership(&self) -> Ownership {
        self.ownership
    }

    /// Ends the record: a borrowed directory is kept, an owned one removed
    /// with all it holds.
    pub fn teardown(self) -> (r: DirTeardown)
        ensures
            is_last_dir_teardown(r, self.spec_ownership(), self.spec_path()),
    {
        if self.ownership.deletes_on_teardown() {
            DirTeardown::RemoveAll(self.path)
        } else {
            DirTeardown::Keep
        }
    }
}

/// A handle to a temporary directory that is removed, with its contents,
/// when the last handle referring to it is released, if it is owned.
pub struct TempDir {
    core: Arc<TempDirCore>,
}

impl TempDir {
    /// The shared record this handle refers to.
    pub closed spec fn spec_core(&self) -> TempDirCore {
        *self.core
    }

    pub open spec fn spec_path(&self) -> Seq<char> {
        self.spec_core().spec_path()
    }

    pub open spec fn spec_ownership(&self) -> Ownership {
        self.spec_core().spec_ownership()
    }

    /// Whether the two handles refer to the same shared record.
    pub open spec fn shares_core_with(&self, other: &TempDir) -> bool {
        self.spec_core() == other.spec_core()
    }

    /// Whether releasing this handle may yield `t`: nothing while other
    /// references remain, the record's teardown when it was the last.
    pub open spec fn may_release_as(&self, t: DirTeardown) -> bool {
        t is Shared || is_last_dir_teardown(t, self.spec_ownership(), self.spec_path())
    }

    /// Builds the first handle to a directory placed as `placement` says,
    /// from the outcome of creating it and any missing parents.
    pub fn from_created(placement: Placement, created: Result<(), std::io::Error>) -> (r: Result<
        TempDir,
        Error,
    >)
        ensures
            r is Ok <==> created is Ok,
            r matches Ok(d) ==> d.spec_path() == placement.path@ && d.spec_ownership()
                == placement.ownership,
            r matches Err(e) ==> e == Error::Io(created->Err_0),
    {
        match created {
            Ok(()) => {
                let core = TempDirCore { path: placement.path, ownership: placement.ownership };
                Ok(TempDir { core: Arc::new(core) })
            },
            Err(e) => Err(Error::Io(e)),
        }
    }

    /// Returns the path of the underlying temporary directory.
    pub fn dir_path(&self) -> (r: &String)
        ensures
            r@ == self.spec_path(),
    {
        &self.core.path
    }

    /// Determines the ownership of the temporary directory.
    pub fn ownership(&self) -> (r: Ownership)
        ensures
            r == self.spec_ownership(),
    {
        self.core.ownership
    }

    /// A further handle to the same directory.
    pub fn try_clone(&self) -> (r: Result<TempDir, Error>)
        ensures
            r matches Ok(d) && d.shares_core_with(self),
    {
        Ok(TempDir { core: Arc::clone(&self.core) })
    }

    /// Releases this handle, giving up its reference to the shared record.
    /// Only the release of the last reference yields a teardown other than
    /// `Shared`. The explicit close is this same release: it never waits for
    /// other handles, and while one remains it leaves the directory exactly
    /// as it was.
    pub fn release(self) -> (r: DirTeardown)
        ensures
            self.may_release_as(r),
    {
        DirTeardown::after_release(take_if_last(self.core))
    }
}

/// An owned directory is removed by the release of its last reference:
/// whichever handle goes last, its release removes the directory's path.
pub proof fn lemma_owned_dir_removed_at_last_release(d: TempDir, t: DirTeardown)
    requires
        d.spec_ownership() is Owned,
        d.may_release_as(t),
        !(t is Shared),
    ensures
        t.spec_removes(d.spec_path()),
{
}

/// A borrowed directory is never removed: no release of any handle to it
/// asks for a removal.
pub proof fn lemma_borrowed_dir_never_removed(d: TempDir, t: DirTeardown)
    requires
        d.spec_ownership() is Borrowed,
        d.may_release_as(t),
    ensures
        !(t is RemoveAll),
{
}

/// Of any number of handles that share one record, each release either
/// leaves the directory in place or is the record's teardown, which is the
/// same whichever handle goes last: the removal of the shared path exactly
/// when the directory is owned.
pub proof fn lemma_shared_dir_handles_release(handles: Seq<TempDir>, outcomes: Seq<DirTeardown>)
    requires
        handles.len() >= 1,
        outcomes.len() == handles.len(),
        forall|i: int|
            0 <= i < handles.len() ==> #[trigger] handles[i].shares_core_with(&handles[0])
                && handles[i].may_release_as(outcomes[i]),
    ensures
        forall|i: int|
            0 <= i < handles.len() ==> #[trigger] outcomes[i] is Shared || (outcomes[i].spec_removes(
                handles[0].spec_path(),
            ) <==> handles[0].spec_ownership() is Owned),
        forall|i: int|
            0 <= i < handles.len() && !(#[trigger] outcomes[i] is Shared) ==> is_last_dir_teardown(
                outcomes[i],
                handles[0].spec_ownership(),
                handles[0].spec_path(),
            ),
{
    assert forall|i: int| 0 <= i < handles.len() implies handles[i].may_release_as(outcomes[i])
        && handles[i].spec_core() == handles[0].spec_core() by {
        assert(handles[i].shares_core_with(&handles[0]));
    }
}

/// An explicit close that finds a sibling still referring to the directory
/// removes nothing, and the sibling keeps the same path and ownership: its
/// own later release, when it is the last, applies the directory's teardown.
pub proof fn lemma_close_with_sibling_leaves_dir(
    d: TempDir,
    sibling: TempDir,
    closed: DirTeardown,
    later: DirTeardown,
)
    requires
        sibling.shares_core_with(&d),
        d.may_release_as(closed),
        closed is Shared,
        sibling.may_release_as(later),
        !(later is Shared),
    ensures
        !(closed is RemoveAll),
        sibling.spec_path() == d.spec_path(),
        sibling.spec_ownership() == d.spec_ownership(),
        is_last_dir_teardown(later, d.spec_ownership(), d.spec_path()),
{
}

} // verus!
