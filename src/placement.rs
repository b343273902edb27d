//! Where a temporary resource is to be opened, and how.
//!
//! A placement is decided before the filesystem is touched: it checks what
//! the caller found out about the root or the existing path, and settles the
//! full path, the ownership of the resource and whether it is to be created.
use vstd::prelude::*;

use crate::errors::Error;
use crate::random_name::{hyphenated, RandomName};
use crate::Ownership;

verus! {

/// Prefix of the names generated for temporary files.
pub const FILE_PREFIX: &'static str = "atmp_";

/// Prefix of the names generated for temporary directories.
pub const DIR_PREFIX: &'static str = "atmpd_";

/// The path that `std::path::Path::join` gives for `name` under `dir`.
pub uninterp spec fn joined_path(dir: Seq<char>, name: Seq<char>) -> Seq<char>;

/// Relies on `std::path::Path::join`: `name` appended to `dir` by the
/// platform's path rules. Both are UTF-8, so the result is too and is
/// taken over unchanged.
#[verifier::external_body]
fn join_path(dir: &str, name: &str) -> (r: String)
    ensures
        r@ == joined_path(dir@, name@),
{
    std::path::Path::new(dir).join(name).to_string_lossy().into_owned()
}

/// Where a resource is to be opened, with which ownership, and whether it
/// is brought into being there (rather than found there).
pub struct Placement {
    pub path: String,
    pub ownership: Ownership,
    pub create_new: bool,
}

impl Placement {
    /// A new owned resource called `name` inside the directory `root`;
    /// `root_is_dir` tells whether `root` names an existing directory.
    pub fn named_in(name: &str, root: &str, root_is_dir: bool) -> (r: Result<Placement, Error>)
        ensures
            r is Ok <==> root_is_dir,
            !root_is_dir ==> r matches Err(Error::InvalidDirectory),
            r matches Ok(p) ==> p.path@ == joined_path(root@, name@) && p.ownership
                == Ownership::Owned && p.create_new,
    {
        if !root_is_dir {
            return Err(Error::InvalidDirectory);
        }
        Ok(Placement { path: join_path(root, name), ownership: Ownership::Owned, create_new: true })
    }

    /// A new owned file inside `root`, named after the identifier `uuid`.
    pub fn file_with_uuid_in(uuid: u128, root: &str, root_is_dir: bool) -> (r: Result<
        Placement,
        Error,
    >)
        ensures
            r is Ok <==> root_is_dir,
            !root_is_dir ==> r matches Err(Error::InvalidDirectory),
            r matches Ok(p) ==> p.path@ == joined_path(root@, FILE_PREFIX@ + hyphenated(uuid))
                && p.ownership == Ownership::Owned && p.create_new,
    {
        let name = RandomName::with_uuid(FILE_PREFIX, uuid);
        Self::named_in(name.as_str(), root, root_is_dir)
    }

    /// A new owned directory inside `root`, named after the identifier `uuid`.
    pub fn dir_with_uuid_in(uuid: u128, root: &str, root_is_dir: bool) -> (r: Result<
        Placement,
        Error,
    >)
        ensures
            r is Ok <==> root_is_dir,
            !root_is_dir ==> r matches Err(Error::InvalidDirectory),
            r matches Ok(p) ==> p.path@ == joined_path(root@, DIR_PREFIX@ + hyphenated(uuid))
                && p.ownership == Ownership::Owned && p.create_new,
    {
        let name = RandomName::with_uuid(DIR_PREFIX, uuid);
        Self::named_in(name.as_str(), root, root_is_dir)
    }

    /// A new owned file inside `root`, under a fresh random name.
    pub fn file_in(root: &str, root_is_dir: bool) -> (r: Result<Placement, Error>)
        ensures
            r is Ok <==> root_is_dir,
            !root_is_dir ==> r matches Err(Error::InvalidDirectory),
            r matches Ok(p) ==> p.ownership == Ownership::Owned && p.create_new && exists|v: u128|
                (v >> 76u128) & 0xfu128 == 4 && p.path@ == joined_path(
                    root@,
                    FILE_PREFIX@ + hyphenated(v),
                ),
    {
        let name = RandomName::random(FILE_PREFIX);
        Self::named_in(name.as_str(), root, root_is_dir)
    }

    /// A new owned directory inside `root`, under a fresh random name.
    pub fn dir_in(root: &str, root_is_dir: bool) -> (r: Result<Placement, Error>)
        ensures
            r is Ok <==> root_is_dir,
            !root_is_dir ==> r matches Err(Error::InvalidDirectory),
            r matches Ok(p) ==> p.ownership == Ownership::Owned && p.create_new && exists|v: u128|
                (v >> 76u128) & 0xfu128 == 4 && p.path@ == joined_path(
                    root@,
                    DIR_PREFIX@ + hyphenated(v),
                ),
    {
        let name = RandomName::random(DIR_PREFIX);
        Self::named_in(name.as_str(), root, root_is_dir)
    }

    /// An existing file at `path`, wrapped with the given ownership;
    /// `is_file` tells whether `path` names an existing regular file.
    pub fn existing_file(path: &str, ownership: Ownership, is_file: bool) -> (r: Result<
        Placement,
        Error,
    >)
        ensures
            r is Ok <==> is_file,
            !is_file ==> r matches Err(Error::InvalidFile),
            r matches Ok(p) ==> p.path@ == path@ && p.ownership == ownership && !p.create_new,
    {
        if !is_file {
            return Err(Error::InvalidFile);
        }
        Ok(Placement { path: String::from_str(path), ownership, create_new: false })
    }

    /// An existing directory at `path`, wrapped with the given ownership;
    /// `is_dir` tells whether `path` names an existing directory.
    pub fn existing_dir(path: &str, ownership: Ownership, is_dir: bool) -> (r: Result<
        Placement,
        Error,
    >)
        ensures
            r is Ok <==> is_dir,
            !is_dir ==> r matches Err(Error::InvalidDirectory),
            r matches Ok(p) ==> p.path@ == path@ && p.ownership == ownership && !p.create_new,
    {
        if !is_dir {
            return Err(Error::InvalidDirectory);
        }
        Ok(Placement { path: String::from_str(path), ownership, create_new: false })
    }
}

} // verus!
