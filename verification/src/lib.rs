//! Filesystem operations engine for a desktop file manager.
//!
//! The engine's decision logic — path structure, listing order, the
//! existence and collision guards of the mutating operations, and the
//! recursive copy and size walks — is verified here. The blocking
//! filesystem calls themselves are performed by a thin unverified shell
//! that consults these functions for every decision and path it uses.

pub mod entry;
pub mod errors;
pub mod launch;
pub mod listing;
pub mod ops;
pub mod order;
pub mod paths;
pub mod walks;

pub use errors::FsError;
