//! Handles to a temporary file.
//!
//! Each handle holds its own open OS handle to the file (the type parameter
//! `H`) and a shared reference to one record, the file's core, which keeps
//! the path, the ownership and one more open handle that is retained for as
//! long as any handle refers to the file. Releasing a handle closes its own
//! OS handle first and then gives up its reference to the core; releasing
//! the last reference yields the teardown that the filesystem must perform.
use std::sync::Arc;
use vstd::prelude::*;

use crate::errors::Error;
use crate::placement::Placement;
use crate::{take_if_last, Ownership};

verus! {

/// What the filesystem must do after a file handle has been released.
pub enum FileTeardown<H> {
    /// Other handles still refer to the file: nothing is to be done.
    Shared,
    /// The last reference to a borrowed file is gone: the retained handle is
    /// to be closed and the file left as it is.
    Keep(H),
    /// The last reference to an owned file is gone: the retained handle is
    /// to be closed first, and then the file at the path removed.
    CloseThenRemove(H, String),
}

/// Whether `t` is the teardown of the last reference to a file at `path`
/// with the given ownership and retained handle.
pub open spec fn is_last_teardown<H>(
    t: FileTeardown<H>,
    ownership: Ownership,
    path: Seq<char>,
    retained: H,
) -> bool {
    match t {
        FileTeardown::Shared => false,
        FileTeardown::Keep(h) => ownership is Borrowed && h == retained,
        FileTeardown::CloseThenRemove(h, p) => ownership is Owned && h == retained && p@ == path,
    }
}

impl<H> FileTeardown<H> {
    /// The teardown owed once a reference to a file's record has been given
    /// up: `last` holds the record when that reference was the last one.
    pub fn after_release(last: Option<TempFileCore<H>>) -> (r: FileTeardown<H>)
        ensures
            last is None ==> r is Shared,
            last matches Some(c) ==> is_last_teardown(
                r,
                c.spec_ownership(),
                c.spec_path(),
                c.spec_retained(),
            ),
    {
        match last {
            Some(core) => core.teardown(),
            None => FileTeardown::Shared,
        }
    }

    /// Whether this teardown removes the file at `path` from disk.
    pub open spec fn spec_removes(&self, path: Seq<char>) -> bool {
        self matches FileTeardown::CloseThenRemove(_, p) && p@ == path
    }
}

/// The shared record of one temporary file.
pub struct TempFileCore<H> {
    path: String,
    file: H,
    ownership: Ownership,
}

impl<H> TempFileCore<H> {
    pub closed spec fn spec_path(&self) -> Seq<char> {
        self.path@
    }

    pub closed spec fn spec_ownership(&self) -> Ownership {
        self.ownership
    }

    /// The open handle kept for the lifetime of the record.
    pub closed spec fn spec_retained(&self) -> H {
        self.file
    }

    /// Ends the record: a borrowed file is kept, an owned one is removed
    /// once the retained handle is closed.
    pub fn teardown(self) -> (r: FileTeardown<H>)
        ensures
            is_last_teardown(r, self.spec_ownership(), self.spec_path(), self.spec_retained()),
    {
        if self.ownership.deletes_on_teardown() {
            FileTeardown::CloseThenRemove(self.file, self.path)
        } else {
            FileTeardown::Keep(self.file)
        }
    }
}

/// A handle to a temporary file that is removed when the last handle
/// referring to it is released, if it is owned.
pub struct TempFile<H> {
    file: H,
    core: Arc<TempFileCore<H>>,
}

impl<H> TempFile<H> {
    /// The shared record this handle refers to.
    pub closed spec fn spec_core(&self) -> TempFileCore<H> {
        *self.core
    }

    /// This handle's own OS handle.
    pub closed spec fn spec_local(&self) -> H {
        self.file
    }

    pub open spec fn spec_path(&self) -> Seq<char> {
        self.spec_core().spec_path()
    }

    pub open spec fn spec_ownership(&self) -> Ownership {
        self.spec_core().spec_ownership()
    }

    /// Whether the two handles refer to the same shared record.
    pub open spec fn shares_core_with(&self, other: &TempFile<H>) -> bool {
        self.spec_core() == other.spec_core()
    }

    /// Whether releasing this handle may yield `t`: nothing while other
    /// references remain, the record's teardown when it was the last.
    pub open spec fn may_release_as(&self, t: FileTeardown<H>) -> bool {
        t is Shared || is_last_teardown(
            t,
            self.spec_ownership(),
            self.spec_path(),
            self.spec_core().spec_retained(),
        )
    }

    /// Builds the first handle to a file opened as `placement` says, from
    /// the retained handle that opening gave and the outcome of opening the
    /// handle's own read-write handle. When that failed, the error comes
    /// back with the teardown to perform: a file created for nothing is
    /// removed as the record's ownership says, and a file that was there
    /// before is kept, only its retained handle closed.
    pub fn from_handles(placement: Placement, retained: H, local: Result<H, std::io::Error>) -> (r:
        Result<Self, (Error, FileTeardown<H>)>)
        ensures
            r is Ok <==> local is Ok,
            r matches Ok(f) ==> f.spec_path() == placement.path@ && f.spec_ownership()
                == placement.ownership && f.spec_core().spec_retained() == retained
                && f.spec_local() == local->Ok_0,
            r matches Err(e) ==> e.0 == Error::Io(local->Err_0) && (if placement.create_new {
                is_last_teardown(e.1, placement.ownership, placement.path@, retained)
            } else {
                e.1 matches FileTeardown::Keep(h) && h == retained
            }),
    {
        let create_new = placement.create_new;
        let core = TempFileCore { path: placement.path, file: retained, ownership: placement.ownership };
        match local {
            Ok(file) => Ok(TempFile { file, core: Arc::new(core) }),
            Err(e) => {
                let teardown = if create_new {
                    core.teardown()
                } else {
                    FileTeardown::Keep(core.file)
                };
                Err((Error::Io(e), teardown))
            },
        }
    }

    /// Returns the path of the underlying temporary file.
    pub fn file_path(&self) -> (r: &String)
        ensures
            r@ == self.spec_path(),
    {
        &self.core.path
    }

    /// Determines the ownership of the temporary file.
    pub fn ownership(&self) -> (r: Ownership)
        ensures
            r == self.spec_ownership(),
    {
        self.core.ownership
    }

    /// This handle's own OS handle, used for reading and writing.
    pub fn local(&self) -> (r: &H)
        ensures
            *r == self.spec_local(),
    {
        &self.file
    }

    /// This handle's own OS handle, for reading, writing and seeking.
    pub fn local_mut(&mut self) -> (r: &mut H)
        ensures
            *r == old(self).spec_local(),
            final(self).spec_local() == *final(r),
            final(self).spec_core() == old(self).spec_core(),
    {
        &mut self.file
    }

    /// A further handle to the same file, around `local`: the outcome of
    /// opening a new OS handle at the file's path (read-write or read-only)
    /// or of duplicating this handle's own.
    pub fn share(&self, local: Result<H, std::io::Error>) -> (r: Result<TempFile<H>, Error>)
        ensures
            r is Ok <==> local is Ok,
            r matches Ok(f) ==> f.shares_core_with(self) && f.spec_local() == local->Ok_0,
            r matches Err(e) ==> e == Error::Io(local->Err_0),
    {
        match local {
            Ok(file) => Ok(TempFile { file, core: Arc::clone(&self.core) }),
            Err(e) => Err(Error::Io(e)),
        }
    }

    /// Releases this handle: its own OS handle is closed first, then its
    /// reference to the shared record is given up. Only the release of the
    /// last reference yields a teardown other than `Shared`.
    pub fn release(self) -> (r: FileTeardown<H>)
        ensures
            self.may_release_as(r),
    {
        let TempFile { file, core } = self;
        {
            let _closed = file;
        }
        FileTeardown::after_release(take_if_last(core))
    }
}

/// An owned file is removed by the release of its last reference: whichever
/// handle goes last, its release removes the file's path.
pub proof fn lemma_owned_file_removed_at_last_release<H>(f: TempFile<H>, t: FileTeardown<H>)
    requires
        f.spec_ownership() is Owned,
        f.may_release_as(t),
        !(t is Shared),
    ensures
        t.spec_removes(f.spec_path()),
{
}

/// A borrowed file is never removed: no release of any handle to it asks
/// for a removal.
pub proof fn lemma_borrowed_file_never_removed<H>(f: TempFile<H>, t: FileTeardown<H>)
    requires
        f.spec_ownership() is Borrowed,
        f.may_release_as(t),
    ensures
        !(t is CloseThenRemove),
{
}

/// Of any number of handles that share one record, each release either
/// leaves the file in place or is the record's teardown, which is the same
/// whichever handle goes last: the removal of the shared path exactly when
/// the file is owned.
pub proof fn lemma_shared_file_handles_release<H>(
    handles: Seq<TempFile<H>>,
    outcomes: Seq<FileTeardown<H>>,
)
    requires
        handles.len() >= 1,
        outcomes.len() == handles.len(),
        forall|i: int|
            0 <= i < handles.len() ==> #[trigger] handles[i].shares_core_with(&handles[0])
                && handles[i].may_release_as(outcomes[i]),
    ensures
        forall|i: int|
            0 <= i < handles.len() ==> #[trigger] outcomes[i] is Shared || (outcomes[i].spec_removes(
                handles[0].spec_path(),
            ) <==> handles[0].spec_ownership() is Owned),
        forall|i: int|
            0 <= i < handles.len() && !(#[trigger] outcomes[i] is Shared) ==> is_last_teardown(
                outcomes[i],
                handles[0].spec_ownership(),
                handles[0].spec_path(),
                handles[0].spec_core().spec_retained(),
            ),
{
    assert forall|i: int| 0 <= i < handles.len() implies handles[i].may_release_as(outcomes[i])
        && handles[i].spec_core() == handles[0].spec_core() by {
        assert(handles[i].shares_core_with(&handles[0]));
    }
}

} // verus!
