//! The engine's error taxonomy.
//!
//! Every operation reports failure as a machine-readable kind; a
//! human-readable message for each kind is available through
//! [`FsError::message`].

use vstd::prelude::*;

verus! {

/// Why a filesystem operation failed.
#[derive(Clone, Copy, Debug, PartialEq, Eq, Structural)]
pub enum FsError {
    /// The path does not exist.
    NotFound,
    /// A directory was expected, but the path is a file or does not exist.
    NotADirectory,
    /// An entry with the requested name already exists in the parent.
    AlreadyExists,
    /// The path has no parent directory component.
    NoParent,
    /// The path has no extractable base name (for example, the root path).
    NoFileName,
    /// Enumeration or per-entry metadata retrieval failed.
    ReadFailure,
    /// An underlying write failed.
    WriteFailure,
    /// File content copy or directory creation failed during a copy.
    CopyFailure,
    /// Removal of an entry failed.
    DeleteFailure,
    /// The underlying rename primitive failed.
    RenameFailure,
    /// Creation of a file or folder failed at the OS level.
    CreateFailure,
    /// A cross-volume move copied the tree, but removing the original
    /// failed; the data is safe and exists at both locations.
    CleanupFailure,
    /// An external viewer or terminal process could not be spawned.
    LaunchFailure,
    /// No supported terminal emulator was found.
    UnsupportedPlatform,
}

/// The human-readable message for each error kind.
pub open spec fn message_spec(e: FsError) -> Seq<char> {
    match e {
        FsError::NotFound => "Path does not exist"@,
        FsError::NotADirectory => "Not a directory"@,
        FsError::AlreadyExists => "An entry with that name already exists"@,
        FsError::NoParent => "Cannot determine parent directory"@,
        FsError::NoFileName => "Cannot determine file name"@,
        FsError::ReadFailure => "Failed to read directory"@,
        FsError::WriteFailure => "Failed to write"@,
        FsError::CopyFailure => "Failed to copy"@,
        FsError::DeleteFailure => "Failed to delete"@,
        FsError::RenameFailure => "Failed to rename"@,
        FsError::CreateFailure => "Failed to create"@,
        FsError::CleanupFailure => "Copied but failed to remove source"@,
        FsError::LaunchFailure => "Failed to launch"@,
        FsError::UnsupportedPlatform => "No supported terminal emulator found"@,
    }
}

impl FsError {
    /// The human-readable message a UI renders for this error kind.
    pub fn message(&self) -> (r: &'static str)
        ensures
            r@ == message_spec(*self),
    {
        match self {
            FsError::NotFound => "Path does not exist",
            FsError::NotADirectory => "Not a directory",
            FsError::AlreadyExists => "An entry with that name already exists",
            FsError::NoParent => "Cannot determine parent directory",
            FsError::NoFileName => "Cannot determine file name",
            FsError::ReadFailure => "Failed to read directory",
            FsError::WriteFailure => "Failed to write",
            FsError::CopyFailure => "Failed to copy",
            FsError::DeleteFailure => "Failed to delete",
            FsError::RenameFailure => "Failed to rename",
            FsError::CreateFailure => "Failed to create",
            FsError::CleanupFailure => "Copied but failed to remove source",
            FsError::LaunchFailure => "Failed to launch",
            FsError::UnsupportedPlatform => "No supported terminal emulator found",
        }
    }
}

} // verus!
