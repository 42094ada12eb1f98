//! File capabilities and file-resource entries of the descriptor
//! table.
//!
//! A capability set is an immutable bit-vector attached at creation to
//! a descriptor-table entry and checked before an operation on that
//! entry is permitted.  The resource kinds behind a file descriptor are
//! a closed set of tagged variants, dispatched by pattern matching.

use vstd::prelude::*;

use crate::pipe::ReadPipe;
use crate::pipe::WritePipe;

verus! {

/// Permission to synchronize file data.
pub const FILE_CAP_DATASYNC: u32 = 0x1;

/// Permission to read.
pub const FILE_CAP_READ: u32 = 0x2;

/// Permission to seek.
pub const FILE_CAP_SEEK: u32 = 0x4;

/// Permission to change descriptor flags.
pub const FILE_CAP_FDSTAT_SET_FLAGS: u32 = 0x8;

/// Permission to synchronize file data and metadata.
pub const FILE_CAP_SYNC: u32 = 0x10;

/// Permission to query the current offset.
pub const FILE_CAP_TELL: u32 = 0x20;

/// Permission to write.
pub const FILE_CAP_WRITE: u32 = 0x40;

/// Permission to advise on access patterns.
pub const FILE_CAP_ADVISE: u32 = 0x80;

/// Permission to allocate storage.
pub const FILE_CAP_ALLOCATE: u32 = 0x100;

/// Permission to read file metadata.
pub const FILE_CAP_FILESTAT_GET: u32 = 0x200;

/// Permission to truncate or extend the file.
pub const FILE_CAP_FILESTAT_SET_SIZE: u32 = 0x400;

/// Permission to change file timestamps.
pub const FILE_CAP_FILESTAT_SET_TIMES: u32 = 0x800;

/// Permission to poll for readiness.
pub const FILE_CAP_POLL_READWRITE: u32 = 0x1000;

/// Every file capability.
pub const FILE_CAPS_ALL: u32 = 0x1fff;

/// The set of operations permitted on one file descriptor.
#[derive(Clone, Copy, Debug, PartialEq, Eq, Structural)]
pub struct FileCaps {
    pub bits: u32,
}

impl FileCaps {
    /// A set holding every file capability.
    pub fn all() -> (r: FileCaps)
        ensures
            r.bits == FILE_CAPS_ALL,
    {
        FileCaps { bits: FILE_CAPS_ALL }
    }

    /// The empty set.
    pub fn empty() -> (r: FileCaps)
        ensures
            r.bits == 0,
    {
        FileCaps { bits: 0 }
    }

    /// A set holding exactly the given bits.
    pub fn from_bits(bits: u32) -> (r: FileCaps)
        ensures
            r.bits == bits,
    {
        FileCaps { bits }
    }

    /// Whether every capability in `mask` is present.
    pub fn contains(&self, mask: u32) -> (r: bool)
        ensures
            r == (self.bits & mask == mask),
    {
        self.bits & mask == mask
    }
}

/// A host-backed file, known to the shim only by its native handle and
/// whether it is an interactive terminal; any actual I/O on it is the
/// embedder's business.
#[derive(Clone, Copy, Debug, PartialEq, Eq, Structural)]
pub struct NativeFile {
    pub handle: u64,
    pub tty: bool,
}

/// The closed set of resource kinds a file descriptor can map to.
pub enum FileResource {
    /// An in-memory readable stream.
    ReadPipe(ReadPipe),
    /// An in-memory writable sink.
    WritePipe(WritePipe),
    /// A file backed by a host-native handle.
    Native(NativeFile),
}

impl FileResource {
    /// Whether the resource reports itself as an interactive terminal.
    /// In-memory pipes never do; a host-backed file reports what the
    /// host observed of it.
    pub open spec fn spec_is_tty(&self) -> bool {
        match *self {
            FileResource::ReadPipe(_) => false,
            FileResource::WritePipe(_) => false,
            FileResource::Native(f) => f.tty,
        }
    }

    /// See [`FileResource::spec_is_tty`].
    pub fn is_tty(&self) -> (r: bool)
        ensures
            r == self.spec_is_tty(),
    {
        match self {
            FileResource::ReadPipe(_) => false,
            FileResource::WritePipe(_) => false,
            FileResource::Native(f) => f.tty,
        }
    }
}

/// A descriptor-table entry for a file resource with its capability
/// set.
pub struct FileEntry {
    pub caps: FileCaps,
    pub file: FileResource,
}

impl FileEntry {
    /// Creates an entry holding `file` guarded by `caps`.
    pub fn new(caps: FileCaps, file: FileResource) -> (r: FileEntry)
        ensures
            r.caps == caps,
            r.file == file,
    {
        FileEntry { caps, file }
    }
}

} // verus!
