//! Decision logic of the single-entry operations.
//!
//! The unverified shell observes facts about the live filesystem (does
//! the source exist, is the destination a directory) and hands them to
//! these functions, which decide — exactly — whether the operation
//! proceeds, on which path, and with which error it fails otherwise.

use vstd::prelude::*;
use crate::errors::FsError;
use crate::paths::{base_name, base_view, get_parent_dir, join_path, join_view, parent_view};

verus! {

/// Guards an operation that requires an existing path: fails with
/// `NotFound` exactly when the path does not exist.
pub fn require_exists(target_exists: bool) -> (r: Result<(), FsError>)
    ensures
        match r {
            Ok(u) => target_exists,
            Err(e) => !target_exists && e == FsError::NotFound,
        },
{
    if target_exists {
        Ok(())
    } else {
        Err(FsError::NotFound)
    }
}

/// Guards an operation that requires a directory: fails with
/// `NotADirectory` exactly when the path is not one.
pub fn require_directory(target_is_dir: bool) -> (r: Result<(), FsError>)
    ensures
        match r {
            Ok(u) => target_is_dir,
            Err(e) => !target_is_dir && e == FsError::NotADirectory,
        },
{
    if target_is_dir {
        Ok(())
    } else {
        Err(FsError::NotADirectory)
    }
}

/// Decides a rename of `path` to `new_name` within its parent. The
/// collision check against the returned destination happens afterwards,
/// through [`guard_collision`], before any rename is attempted.
pub fn plan_rename(path: &str, new_name: &str, source_exists: bool) -> (r: Result<String, FsError>)
    ensures
        match r {
            Ok(dest) => {
                &&& source_exists
                &&& parent_view(path@) matches Some(p) && dest@ == join_view(p, new_name@)
            },
            Err(e) => {
                &&& (e == FsError::NotFound <==> !source_exists)
                &&& (e == FsError::NoParent <==> source_exists && parent_view(path@) is None)
                &&& (e == FsError::NotFound || e == FsError::NoParent)
            },
        },
{
    if !source_exists {
        return Err(FsError::NotFound);
    }
    match get_parent_dir(path) {
        Err(u) => Err(FsError::NoParent),
        Ok(parent) => Ok(join_path(parent.as_str(), new_name)),
    }
}

/// Guards rename and create against overwriting: fails with
/// `AlreadyExists` exactly when the destination already exists.
pub fn guard_collision(dest_exists: bool) -> (r: Result<(), FsError>)
    ensures
        match r {
            Ok(u) => !dest_exists,
            Err(e) => dest_exists && e == FsError::AlreadyExists,
        },
{
    if dest_exists {
        Err(FsError::AlreadyExists)
    } else {
        Ok(())
    }
}

/// Decides a create of a file or folder named `name` under `dir`:
/// the path of the new entry, or `AlreadyExists` if that path is taken.
pub fn plan_create(dir: &str, name: &str, dest_exists: bool) -> (r: Result<String, FsError>)
    ensures
        match r {
            Ok(dest) => !dest_exists && dest@ == join_view(dir@, name@),
            Err(e) => dest_exists && e == FsError::AlreadyExists,
        },
{
    if dest_exists {
        Err(FsError::AlreadyExists)
    } else {
        Ok(join_path(dir, name))
    }
}

/// How a delete removes its target.
#[derive(Clone, Copy, Debug, PartialEq, Eq, Structural)]
pub enum DeleteMethod {
    /// Send to the OS trash facility (recoverable by the user).
    Trash,
    /// Remove a single file irreversibly.
    RemoveFile,
    /// Remove a directory tree recursively and irreversibly.
    RemoveTree,
}

/// Decides a delete: trash when not permanent, otherwise direct file
/// removal or recursive directory removal by the target's kind; trash
/// and permanent deletion are mutually exclusive.
pub fn plan_delete(target_exists: bool, permanent: bool, target_is_dir: bool) -> (r: Result<
    DeleteMethod,
    FsError,
>)
    ensures
        match r {
            Ok(m) => target_exists && m == (if !permanent {
                DeleteMethod::Trash
            } else if target_is_dir {
                DeleteMethod::RemoveTree
            } else {
                DeleteMethod::RemoveFile
            }),
            Err(e) => !target_exists && e == FsError::NotFound,
        },
{
    if !target_exists {
        return Err(FsError::NotFound);
    }
    if !permanent {
        Ok(DeleteMethod::Trash)
    } else if target_is_dir {
        Ok(DeleteMethod::RemoveTree)
    } else {
        Ok(DeleteMethod::RemoveFile)
    }
}

/// Decides a copy or a move: the source must exist, the destination must
/// be a directory, and the source must have a base name; the resulting
/// path is always that base name inside the destination directory, never
/// supplied independently.
pub fn plan_transfer(
    source: &str,
    dest_dir: &str,
    source_exists: bool,
    dest_is_dir: bool,
) -> (r: Result<String, FsError>)
    ensures
        match r {
            Ok(dest) => {
                &&& source_exists
                &&& dest_is_dir
                &&& base_view(source@) matches Some(b) && dest@ == join_view(dest_dir@, b)
            },
            Err(e) => {
                &&& (e == FsError::NotFound <==> !source_exists)
                &&& (e == FsError::NotADirectory <==> source_exists && !dest_is_dir)
                &&& (e == FsError::NoFileName <==> source_exists && dest_is_dir && base_view(
                    source@,
                ) is None)
                &&& (e == FsError::NotFound || e == FsError::NotADirectory
                    || e == FsError::NoFileName)
            },
        },
{
    if !source_exists {
        return Err(FsError::NotFound);
    }
    if !dest_is_dir {
        return Err(FsError::NotADirectory);
    }
    match base_name(source) {
        Err(u) => Err(FsError::NoFileName),
        Ok(b) => Ok(join_path(dest_dir, b.as_str())),
    }
}

/// A decided move: the source, the destination derived from it, and the
/// source's kind, which fixes how the cross-volume fallback removes the
/// original.
pub struct MovePlan {
    pub source: String,
    pub dest: String,
    pub source_is_dir: bool,
}

/// Decides a move, with the same guards and destination derivation as a
/// copy. The shell first attempts an atomic rename of `plan.source` to
/// `plan.dest`; only if that primitive fails does it fall back to copy
/// plus removal of the original.
pub fn plan_move(
    source: &str,
    dest_dir: &str,
    source_exists: bool,
    dest_is_dir: bool,
    source_is_dir: bool,
) -> (r: Result<MovePlan, FsError>)
    ensures
        match r {
            Ok(plan) => {
                &&& source_exists
                &&& dest_is_dir
                &&& plan.source@ == source@
                &&& plan.source_is_dir == source_is_dir
                &&& base_view(source@) matches Some(b) && plan.dest@ == join_view(dest_dir@, b)
            },
            Err(e) => {
                &&& (e == FsError::NotFound <==> !source_exists)
                &&& (e == FsError::NotADirectory <==> source_exists && !dest_is_dir)
                &&& (e == FsError::NoFileName <==> source_exists && dest_is_dir && base_view(
                    source@,
                ) is None)
                &&& (e == FsError::NotFound || e == FsError::NotADirectory
                    || e == FsError::NoFileName)
            },
        },
{
    let dest = plan_transfer(source, dest_dir, source_exists, dest_is_dir)?;
    Ok(MovePlan { source: source.to_owned(), dest, source_is_dir })
}

impl MovePlan {
    /// After the cross-volume copy, the original is removed recursively
    /// for a directory and directly for a file.
    pub fn cleanup_method(&self) -> (m: DeleteMethod)
        ensures
            m == (if self.source_is_dir {
                DeleteMethod::RemoveTree
            } else {
                DeleteMethod::RemoveFile
            }),
    {
        if self.source_is_dir {
            DeleteMethod::RemoveTree
        } else {
            DeleteMethod::RemoveFile
        }
    }

    /// The outcome of the whole move once the fallback ran: the
    /// destination path when the original was removed, `CleanupFailure`
    /// when the copy succeeded but the removal did not — the data then
    /// exists at the destination and nothing is lost.
    pub fn finish(self, cleanup_ok: bool) -> (r: Result<String, FsError>)
        ensures
            match r {
                Ok(d) => cleanup_ok && d == self.dest,
                Err(e) => !cleanup_ok && e == FsError::CleanupFailure,
            },
    {
        if cleanup_ok {
            Ok(self.dest)
        } else {
            Err(FsError::CleanupFailure)
        }
    }
}

/// Maps the platform's home-directory lookup onto the operation's
/// result; a platform without a discoverable home reports `NotFound`.
pub fn home_dir_from(lookup: Option<String>) -> (r: Result<String, FsError>)
    ensures
        match r {
            Ok(p) => lookup matches Some(q) && p == q,
            Err(e) => lookup is None && e == FsError::NotFound,
        },
{
    match lookup {
        Some(p) => Ok(p),
        None => Err(FsError::NotFound),
    }
}

} // verus!
