//! Plain data describing a loaded asset-pack directory tree.
//!
//! The I/O layer walks the file system and hands the tree over as values of
//! this type; nothing here touches a disk.

use vstd::prelude::*;

verus! {

/// A directory entry for the sidebar tree view: a file or a directory with
/// its children, sorted by name by the layer that scanned it.
pub struct DirectoryEntry {
    pub name: String,
    pub path: String,
    pub is_dir: bool,
    pub children: Option<Vec<DirectoryEntry>>,
}

} // verus!
