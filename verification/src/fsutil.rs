//! The decision rule for claiming a destination directory.

use vstd::prelude::*;

use crate::error::Error;

verus! {

/// What the caller should do with a destination path it has probed.
#[derive(Clone, Copy, Debug, PartialEq, Eq, Structural)]
pub enum DirAction {
    /// The path does not exist: create the directory.
    Create,
    /// The path is an existing empty directory: use it as is.
    UseExisting,
}

/// Decide whether a destination may be claimed, from what a probe of
/// the filesystem reported: an absent path is created; an existing
/// empty directory is used; anything else — a non-directory, or a
/// directory with entries — is refused. `is_dir` and `is_empty` are
/// only meaningful for a path that exists.
pub fn empty_dir_action(exists: bool, is_dir: bool, is_empty: bool) -> (r: Result<
    DirAction,
    Error,
>)
    ensures
        !exists ==> r == Ok::<DirAction, Error>(DirAction::Create),
        exists && is_dir && is_empty ==> r == Ok::<DirAction, Error>(DirAction::UseExisting),
        exists && !(is_dir && is_empty) ==> r == Err::<DirAction, Error>(
            Error::DestinationNotEmpty,
        ),
{
    if !exists {
        Ok(DirAction::Create)
    } else if !is_dir {
        Err(Error::DestinationNotEmpty)
    } else if !is_empty {
        Err(Error::DestinationNotEmpty)
    } else {
        Ok(DirAction::UseExisting)
    }
}

} // verus!
