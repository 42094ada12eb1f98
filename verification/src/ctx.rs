//! A standalone WASI context: arguments, environment variables and a
//! descriptor table, without the host-call bookkeeping of
//! [`Environ`](crate::environ::Environ).
//!
//! This is the bare aggregate an embedder seeds before wiring host
//! functions up; it starts with an empty descriptor table and leaves
//! the standard-stream handles to be populated explicitly.

use vstd::prelude::*;

use crate::dir::DirCaps;
use crate::dir::DirEntry;
use crate::environ::env_entry_bytes;
use crate::environ::spec_stdio_caps;
use crate::error::WasiCommonError;
use crate::fd_map::spec_next_fd;
use crate::fd_map::spec_probe;
use crate::fd_map::FdEntry;
use crate::fd_map::FdMap;
use crate::file::FileCaps;
use crate::file::FileEntry;
use crate::file::FileResource;
use crate::file::FILE_CAP_SEEK;
use crate::file::FILE_CAP_TELL;
use crate::string_array::spec_push;
use crate::string_array::StringArray;
use vstd::utf8::encode_utf8;

verus! {

/// A WASI context an embedder seeds before guest execution.
pub struct WasiCtx {
    /// The command-line arguments.
    pub args: StringArray,
    /// The environment variables, each entry formatted `NAME=VALUE`.
    pub envs: StringArray,
    /// The descriptor table.
    pub fd_map: FdMap,
}

impl WasiCtx {
    /// Every component is well-formed.
    pub open spec fn wf(&self) -> bool {
        &&& self.args.wf()
        &&& self.envs.wf()
        &&& self.fd_map.wf()
    }

    /// Creates an empty context.
    pub fn new() -> (r: WasiCtx)
        ensures
            r.wf(),
            r.args@ == Seq::<Seq<u8>>::empty(),
            r.envs@ == Seq::<Seq<u8>>::empty(),
            r.fd_map@ == Map::<i32, FdEntry>::empty(),
            r.fd_map.cursor() == 3,
    {
        WasiCtx { args: StringArray::new(), envs: StringArray::new(), fd_map: FdMap::new() }
    }

    /// Appends one command-line argument, unless a capacity limit
    /// would be exceeded.
    pub fn push_arg(&mut self, arg: &str) -> (r: Result<(), WasiCommonError>)
        requires
            old(self).wf(),
        ensures
            final(self).wf(),
            final(self).envs == old(self).envs,
            final(self).fd_map == old(self).fd_map,
            match spec_push(old(self).args@, encode_utf8(arg@)) {
                Ok(s) => r is Ok && final(self).args@ == s,
                Err(e) => r == Err::<(), WasiCommonError>(WasiCommonError::StringArray(e))
                    && final(self).args == old(self).args,
            },
    {
        self.args.push_bytes(vstd::string::StrSliceExecFns::as_bytes_vec(arg))
    }

    /// Appends one environment variable, stored as `NAME=VALUE`,
    /// unless a capacity limit would be exceeded.
    pub fn push_env(&mut self, var: &str, val: &str) -> (r: Result<(), WasiCommonError>)
        requires
            old(self).wf(),
        ensures
            final(self).wf(),
            final(self).args == old(self).args,
            final(self).fd_map == old(self).fd_map,
            match spec_push(old(self).envs@, env_entry_bytes(var@, val@)) {
                Ok(s) => r is Ok && final(self).envs@ == s,
                Err(e) => r == Err::<(), WasiCommonError>(WasiCommonError::StringArray(e))
                    && final(self).envs == old(self).envs,
            },
    {
        let mut bytes = vstd::string::StrSliceExecFns::as_bytes_vec(var);
        bytes.push(61u8);
        bytes.extend_from_slice(vstd::string::StrSliceExecFns::as_bytes_vec(val).as_slice());
        proof {
            assert(bytes@ =~= env_entry_bytes(var@, val@));
        }
        self.envs.push_bytes(bytes)
    }

    /// Allocates the next free descriptor for a directory resource.
    pub fn push_dir(
        &mut self,
        dir: u64,
        caps: DirCaps,
        file_caps: FileCaps,
        preopen_dir: String,
    ) -> (r: Result<i32, WasiCommonError>)
        requires
            old(self).wf(),
        ensures
            final(self).wf(),
            final(self).args == old(self).args,
            final(self).envs == old(self).envs,
            old(self).fd_map@.len() >= 0x7fff_ffff ==> r == Err::<i32, WasiCommonError>(
                WasiCommonError::FdMapFull,
            ) && final(self).fd_map == old(self).fd_map,
            old(self).fd_map@.len() < 0x7fff_ffff ==> ({
                &&& r matches Ok(fd)
                &&& Some(fd) == spec_probe(
                    old(self).fd_map@.dom(),
                    old(self).fd_map.cursor(),
                    0x1_0000_0000,
                )
                &&& !old(self).fd_map@.contains_key(fd)
                &&& final(self).fd_map@ == old(self).fd_map@.insert(
                    fd,
                    FdEntry::Dir(
                        DirEntry {
                            caps,
                            file_caps,
                            preopen_dir: Some(preopen_dir),
                            dir,
                        },
                    ),
                )
                &&& final(self).fd_map.cursor() == spec_next_fd(fd)
            }),
    {
        self.fd_map.push(FdEntry::Dir(DirEntry::new(caps, file_caps, Some(preopen_dir), dir)))
    }

    /// Allocates the next free descriptor for a file resource.
    pub fn push_file(&mut self, file: FileResource, caps: FileCaps) -> (r: Result<
        i32,
        WasiCommonError,
    >)
        requires
            old(self).wf(),
        ensures
            final(self).wf(),
            final(self).args == old(self).args,
            final(self).envs == old(self).envs,
            old(self).fd_map@.len() >= 0x7fff_ffff ==> r == Err::<i32, WasiCommonError>(
                WasiCommonError::FdMapFull,
            ) && final(self).fd_map == old(self).fd_map,
            old(self).fd_map@.len() < 0x7fff_ffff ==> ({
                &&& r matches Ok(fd)
                &&& Some(fd) == spec_probe(
                    old(self).fd_map@.dom(),
                    old(self).fd_map.cursor(),
                    0x1_0000_0000,
                )
                &&& !old(self).fd_map@.contains_key(fd)
                &&& final(self).fd_map@ == old(self).fd_map@.insert(
                    fd,
                    FdEntry::File(FileEntry { caps, file }),
                )
                &&& final(self).fd_map.cursor() == spec_next_fd(fd)
            }),
    {
        self.fd_map.push(FdEntry::File(FileEntry::new(caps, file)))
    }

    /// Places a file resource at a chosen descriptor, overwriting
    /// whatever was there.
    pub fn insert_file(&mut self, fd: i32, file: FileResource, caps: FileCaps) -> (r: Result<
        (),
        WasiCommonError,
    >)
        requires
            old(self).wf(),
            old(self).fd_map@.contains_key(fd) || old(self).fd_map@.len() < 0x7fff_ffff,
        ensures
            final(self).wf(),
            final(self).args == old(self).args,
            final(self).envs == old(self).envs,
            r is Ok,
            final(self).fd_map@ == old(self).fd_map@.insert(
                fd,
                FdEntry::File(FileEntry { caps, file }),
            ),
            final(self).fd_map.cursor() == old(self).fd_map.cursor(),
    {
        self.fd_map.insert_at(fd, FdEntry::File(FileEntry::new(caps, file)));
        Ok(())
    }

    /// Redirects standard input (descriptor 0) to `file`, with the
    /// capabilities [`spec_stdio_caps`] grants it.
    pub fn set_stdin(&mut self, file: FileResource)
        requires
            old(self).wf(),
            old(self).fd_map@.contains_key(0) || old(self).fd_map@.len() < 0x7fff_ffff,
        ensures
            final(self).wf(),
            final(self).args == old(self).args,
            final(self).envs == old(self).envs,
            final(self).fd_map@ == old(self).fd_map@.insert(
                0,
                FdEntry::File(FileEntry { caps: FileCaps { bits: spec_stdio_caps(file) }, file }),
            ),
            final(self).fd_map.cursor() == old(self).fd_map.cursor(),
    {
        let caps = Self::stdio_caps(&file);
        self.fd_map.insert_at(0, FdEntry::File(FileEntry::new(caps, file)));
    }

    /// Redirects standard output (descriptor 1) to `file`, with the
    /// capabilities [`spec_stdio_caps`] grants it.
    pub fn set_stdout(&mut self, file: FileResource)
        requires
            old(self).wf(),
            old(self).fd_map@.contains_key(1) || old(self).fd_map@.len() < 0x7fff_ffff,
        ensures
            final(self).wf(),
            final(self).args == old(self).args,
            final(self).envs == old(self).envs,
            final(self).fd_map@ == old(self).fd_map@.insert(
                1,
                FdEntry::File(FileEntry { caps: FileCaps { bits: spec_stdio_caps(file) }, file }),
            ),
            final(self).fd_map.cursor() == old(self).fd_map.cursor(),
    {
        let caps = Self::stdio_caps(&file);
        self.fd_map.insert_at(1, FdEntry::File(FileEntry::new(caps, file)));
    }

    /// Redirects standard error (descriptor 2) to `file`, with the
    /// capabilities [`spec_stdio_caps`] grants it.
    pub fn set_stderr(&mut self, file: FileResource)
        requires
            old(self).wf(),
            old(self).fd_map@.contains_key(2) || old(self).fd_map@.len() < 0x7fff_ffff,
        ensures
            final(self).wf(),
            final(self).args == old(self).args,
            final(self).envs == old(self).envs,
            final(self).fd_map@ == old(self).fd_map@.insert(
                2,
                FdEntry::File(FileEntry { caps: FileCaps { bits: spec_stdio_caps(file) }, file }),
            ),
            final(self).fd_map.cursor() == old(self).fd_map.cursor(),
    {
        let caps = Self::stdio_caps(&file);
        self.fd_map.insert_at(2, FdEntry::File(FileEntry::new(caps, file)));
    }

    /// The capabilities a standard stream gets; see
    /// [`spec_stdio_caps`].
    pub fn stdio_caps(file: &FileResource) -> (r: FileCaps)
        ensures
            r.bits == spec_stdio_caps(*file),
    {
        let mut caps = FileCaps::all();
        if file.is_tty() {
            caps = FileCaps::from_bits(caps.bits & !(FILE_CAP_TELL | FILE_CAP_SEEK));
        }
        caps
    }
}

} // verus!
