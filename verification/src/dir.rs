//! Directory capabilities and directory entries of the descriptor
//! table.
//!
//! A directory made available to the guest is known to the shim by its
//! host-native handle and, for pre-opened directories, by the
//! guest-visible path under which it was opened.

use vstd::prelude::*;

use crate::file::FileCaps;

verus! {

/// Permission to create a directory.
pub const DIR_CAP_CREATE_DIRECTORY: u32 = 0x1;

/// Permission to create a file.
pub const DIR_CAP_CREATE_FILE: u32 = 0x2;

/// Permission to be the source of a link.
pub const DIR_CAP_LINK_SOURCE: u32 = 0x4;

/// Permission to be the target of a link.
pub const DIR_CAP_LINK_TARGET: u32 = 0x8;

/// Permission to open a path.
pub const DIR_CAP_OPEN: u32 = 0x10;

/// Permission to list the directory.
pub const DIR_CAP_READDIR: u32 = 0x20;

/// Permission to read a symbolic link.
pub const DIR_CAP_READLINK: u32 = 0x40;

/// Permission to be the source of a rename.
pub const DIR_CAP_RENAME_SOURCE: u32 = 0x80;

/// Permission to be the target of a rename.
pub const DIR_CAP_RENAME_TARGET: u32 = 0x100;

/// Permission to create a symbolic link.
pub const DIR_CAP_SYMLINK: u32 = 0x200;

/// Permission to remove a directory.
pub const DIR_CAP_REMOVE_DIRECTORY: u32 = 0x400;

/// Permission to unlink a file.
pub const DIR_CAP_UNLINK_FILE: u32 = 0x800;

/// Permission to read metadata of a path.
pub const DIR_CAP_PATH_FILESTAT_GET: u32 = 0x1000;

/// Permission to change timestamps of a path.
pub const DIR_CAP_PATH_FILESTAT_SET_TIMES: u32 = 0x2000;

/// Permission to read the directory's own metadata.
pub const DIR_CAP_FILESTAT_GET: u32 = 0x4000;

/// Permission to change the directory's own timestamps.
pub const DIR_CAP_FILESTAT_SET_TIMES: u32 = 0x8000;

/// Every directory capability.
pub const DIR_CAPS_ALL: u32 = 0xffff;

/// The set of operations permitted on one directory descriptor.
#[derive(Clone, Copy, Debug, PartialEq, Eq, Structural)]
pub struct DirCaps {
    pub bits: u32,
}

impl DirCaps {
    /// A set holding every directory capability.
    pub fn all() -> (r: DirCaps)
        ensures
            r.bits == DIR_CAPS_ALL,
    {
        DirCaps { bits: DIR_CAPS_ALL }
    }

    /// The empty set.
    pub fn empty() -> (r: DirCaps)
        ensures
            r.bits == 0,
    {
        DirCaps { bits: 0 }
    }

    /// A set holding exactly the given bits.
    pub fn from_bits(bits: u32) -> (r: DirCaps)
        ensures
            r.bits == bits,
    {
        DirCaps { bits }
    }

    /// Whether every capability in `mask` is present.
    pub fn contains(&self, mask: u32) -> (r: bool)
        ensures
            r == (self.bits & mask == mask),
    {
        self.bits & mask == mask
    }
}

/// A descriptor-table entry for a directory resource: its capability
/// sets, the optional pre-open host path, and the host-native handle of
/// the directory.
pub struct DirEntry {
    pub caps: DirCaps,
    pub file_caps: FileCaps,
    pub preopen_dir: Option<String>,
    pub dir: u64,
}

impl DirEntry {
    /// Creates an entry for the directory with native handle `dir`,
    /// guarded by `caps` for directory operations and `file_caps` for
    /// operations on files opened through it.
    pub fn new(caps: DirCaps, file_caps: FileCaps, preopen_dir: Option<String>, dir: u64) -> (r:
        DirEntry)
        ensures
            r.caps == caps,
            r.file_caps == file_caps,
            r.preopen_dir == preopen_dir,
            r.dir == dir,
    {
        DirEntry { caps, file_caps, preopen_dir, dir }
    }
}

} // verus!
