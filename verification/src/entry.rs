//! Listing entries and the disk-usage accessor.

use vstd::prelude::*;

verus! {

/// The mathematical content of one listing entry.
pub ghost struct EntryModel {
    pub name: Seq<char>,
    pub path: Seq<char>,
    pub is_dir: bool,
    pub size: u64,
    pub modified: u64,
}

/// One immediate child of a listed directory.
///
/// Entries are transient: a listing rebuilds them from live metadata on
/// every call. `size` is on-disk usage for files and always 0 for
/// directories; `modified` is seconds since the Unix epoch, 0 if the
/// platform could not report it.
#[derive(Clone, Debug)]
pub struct FileEntry {
    pub name: String,
    pub path: String,
    pub is_dir: bool,
    pub size: u64,
    pub modified: u64,
}

impl View for FileEntry {
    type V = EntryModel;

    open spec fn view(&self) -> EntryModel {
        EntryModel {
            name: self.name@,
            path: self.path@,
            is_dir: self.is_dir,
            size: self.size,
            modified: self.modified,
        }
    }
}

/// On-disk usage derived from file metadata: `blocks * 512` where the
/// platform reports a block count, the logical length where it does not.
pub open spec fn disk_usage_spec(len: u64, blocks: Option<u64>) -> int {
    match blocks {
        Some(b) => b * 512,
        None => len as int,
    }
}

/// The shared disk-usage accessor: actual storage consumed by a file,
/// from its metadata, under the platform's accounting.
pub fn disk_usage(len: u64, blocks: Option<u64>) -> (r: u64)
    requires
        blocks matches Some(b) ==> b <= u64::MAX / 512,
    ensures
        r as int == disk_usage_spec(len, blocks),
{
    match blocks {
        Some(b) => b * 512,
        None => len,
    }
}

/// Builds one listing entry from raw metadata, applying the engine's
/// accounting rules: directories always report size 0, files report
/// on-disk usage, and a missing modification time becomes 0.
pub fn make_entry(
    name: String,
    path: String,
    is_dir: bool,
    len: u64,
    blocks: Option<u64>,
    modified: Option<u64>,
) -> (e: FileEntry)
    requires
        blocks matches Some(b) ==> b <= u64::MAX / 512,
    ensures
        e@.name == name@,
        e@.path == path@,
        e@.is_dir == is_dir,
        e@.size as int == if is_dir { 0int } else { disk_usage_spec(len, blocks) },
        e@.modified == match modified { Some(m) => m, None => 0u64 },
{
    let size: u64 = if is_dir { 0 } else { disk_usage(len, blocks) };
    let modified: u64 = match modified {
        Some(m) => m,
        None => 0,
    };
    FileEntry { name, path, is_dir, size, modified }
}

} // verus!
