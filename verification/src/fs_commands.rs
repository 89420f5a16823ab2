//! The record the file-handle table's directory-tree listing produces. The
//! listing itself walks the file system and lives in the I/O layer.

use vstd::prelude::*;

verus! {

/// One file found when listing a directory tree: its path relative to the
/// listing's base directory, and its size in bytes.
#[derive(Debug)]
pub struct TreeEntry {
    /// The file's path, relative to the base directory of the listing.
    pub path: String,
    /// The file's size in bytes.
    pub size: u64,
}

} // verus!
