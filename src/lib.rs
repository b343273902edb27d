//! Temporary files and directories that are removed from disk when the last
//! handle referring to them is released.
//!
//! The library holds the lifecycle of a temporary resource: the shared record
//! of its path and ownership, the handles that refer to it, and the decision
//! of what the filesystem must do when a handle goes away. The filesystem
//! calls themselves are made by the caller, who hands the library what they
//! returned and performs the teardown the library asks for.
use std::sync::Arc;
use vstd::prelude::*;

mod errors;
mod placement;
mod random_name;
mod tempdir;
mod tempfile;

pub use errors::Error;
pub use placement::{joined_path, Placement, DIR_PREFIX, FILE_PREFIX};
pub use random_name::RandomName;
pub use tempdir::{is_last_dir_teardown, DirTeardown, TempDir, TempDirCore};
pub use tempfile::{is_last_teardown, FileTeardown, TempFile, TempFileCore};

verus! {

/// Determines the ownership of a temporary file or directory.
#[derive(Debug, Clone, Copy, PartialEq, Eq, Structural)]
pub enum Ownership {
    /// The file or directory is removed when the last reference to it is released.
    Owned,
    /// The file or directory is left untouched when the last reference to it is released.
    Borrowed,
}

impl Ownership {
    /// Whether releasing the last reference removes the resource from disk.
    pub open spec fn spec_deletes(self) -> bool {
        self is Owned
    }

    /// Whether releasing the last reference removes the resource from disk.
    pub fn deletes_on_teardown(self) -> (r: bool)
        ensures
            r == self.spec_deletes(),
    {
        match self {
            Ownership::Owned => true,
            Ownership::Borrowed => false,
        }
    }
}

/// Relies on `std::sync::Arc::into_inner`: the shared value is handed back
/// when this was the last strong reference, and it is then the value that
/// was shared. Of calls made on every clone of one `Arc`, exactly one
/// receives the value, however the calls interleave.
#[verifier::external_body]
pub(crate) fn take_if_last<T>(shared: Arc<T>) -> (r: Option<T>)
    ensures
        r matches Some(t) ==> t == *shared,
{
    Arc::into_inner(shared)
}

} // verus!
