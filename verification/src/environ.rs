//! The shared environment state: arguments, environment variables, the
//! descriptor table and the process exit code.
//!
//! Exactly one instance serves one execution context.  It is created
//! at module-instantiation time, seeded during setup, and read or
//! mutated by every host-function call thereafter.  Arguments and
//! environment variables are fixed for the lifetime of the instance:
//! once any host function has executed, a further push is rejected, so
//! the sizes a guest learned from `*_sizes_get` can never go stale.

use vstd::prelude::*;

use crate::dir::DirCaps;
use crate::dir::DirEntry;
use crate::error::WasiCommonError;
use crate::fd_map::spec_next_fd;
use crate::fd_map::spec_probe;
use crate::fd_map::FdEntry;
use crate::fd_map::FdMap;
use crate::file::FileCaps;
use crate::file::FileEntry;
use crate::file::FileResource;
use crate::file::FILE_CAPS_ALL;
use crate::file::FILE_CAP_SEEK;
use crate::file::FILE_CAP_TELL;
use crate::pipe::ReadPipe;
use crate::pipe::WritePipe;
use crate::string_array::cum_size;
use crate::string_array::spec_push;
use crate::string_array::StringArray;
use vstd::utf8::encode_utf8;

verus! {

/// The capability bits granted to a standard stream: all of them,
/// except that TELL and SEEK are withheld from an interactive
/// terminal, so that the guest's isatty detection (which relies on
/// seek and tell failing for ttys) works.
pub open spec fn spec_stdio_caps(file: FileResource) -> u32 {
    if file.spec_is_tty() {
        FILE_CAPS_ALL & !(FILE_CAP_TELL | FILE_CAP_SEEK)
    } else {
        FILE_CAPS_ALL
    }
}

/// The bytes of one environment entry as the guest sees it:
/// `NAME=VALUE`.
pub open spec fn env_entry_bytes(var: Seq<char>, val: Seq<char>) -> Seq<u8> {
    encode_utf8(var) + seq![61u8] + encode_utf8(val)
}

/// A file entry holding an empty in-memory source, under full
/// capabilities: what a fresh standard input is.
pub open spec fn is_empty_read_stdio(e: FdEntry) -> bool {
    &&& e matches FdEntry::File(f)
    &&& f.caps.bits == FILE_CAPS_ALL
    &&& (f.file matches FileResource::ReadPipe(p) && p@ == Seq::<u8>::empty())
}

/// A file entry holding an empty in-memory sink, under full
/// capabilities: what a fresh standard output or error is.
pub open spec fn is_empty_write_stdio(e: FdEntry) -> bool {
    &&& e matches FdEntry::File(f)
    &&& f.caps.bits == FILE_CAPS_ALL
    &&& (f.file matches FileResource::WritePipe(p) && p@ == Seq::<u8>::empty())
}

/// The shared environment state.
pub struct Environ {
    /// The command-line arguments.
    pub args: StringArray,
    /// The environment variables, each entry formatted `NAME=VALUE`.
    pub envs: StringArray,
    /// The descriptor table.
    pub fd_map: FdMap,
    /// The last code recorded by `proc_exit`, initially zero.
    pub exit_code: i32,
    /// Whether a host function has executed; set once, never cleared.
    pub setup_done: bool,
}

impl Environ {
    /// Every component is well-formed.
    pub open spec fn wf(&self) -> bool {
        &&& self.args.wf()
        &&& self.envs.wf()
        &&& self.fd_map.wf()
    }

    /// Creates a fresh state: no arguments, no environment variables,
    /// exit code zero, and the three standard streams redirected to
    /// empty in-memory pipes.
    pub fn new() -> (r: Environ)
        ensures
            r.wf(),
            r.args@ == Seq::<Seq<u8>>::empty(),
            r.envs@ == Seq::<Seq<u8>>::empty(),
            r.exit_code == 0,
            !r.setup_done,
            r.fd_map@.dom() =~= set![0i32, 1i32, 2i32],
            is_empty_read_stdio(r.fd_map@[0]),
            is_empty_write_stdio(r.fd_map@[1]),
            is_empty_write_stdio(r.fd_map@[2]),
            r.fd_map.cursor() == 3,
    {
        let mut r = Environ {
            args: StringArray::new(),
            envs: StringArray::new(),
            fd_map: FdMap::new(),
            exit_code: 0,
            setup_done: false,
        };
        r.set_stdin(FileResource::ReadPipe(ReadPipe::new(Vec::new())));
        r.set_stdout(FileResource::WritePipe(WritePipe::new()));
        r.set_stderr(FileResource::WritePipe(WritePipe::new()));
        proof {
            assert(r.fd_map@.dom() =~= set![0i32, 1i32, 2i32]);
        }
        r
    }

    /// Appends one command-line argument, unless a host function has
    /// already executed or a capacity limit would be exceeded.
    pub fn push_arg(&mut self, arg: &str) -> (r: Result<(), WasiCommonError>)
        requires
            old(self).wf(),
        ensures
            final(self).wf(),
            final(self).envs == old(self).envs,
            final(self).fd_map == old(self).fd_map,
            final(self).exit_code == old(self).exit_code,
            final(self).setup_done == old(self).setup_done,
            old(self).setup_done ==> r == Err::<(), WasiCommonError>(WasiCommonError::Sealed)
                && final(self).args == old(self).args,
            !old(self).setup_done ==> match spec_push(old(self).args@, encode_utf8(arg@)) {
                Ok(s) => r is Ok && final(self).args@ == s,
                Err(e) => r == Err::<(), WasiCommonError>(WasiCommonError::StringArray(e))
                    && final(self).args == old(self).args,
            },
    {
        if self.setup_done {
            return Err(WasiCommonError::Sealed);
        }
        self.args.push_bytes(vstd::string::StrSliceExecFns::as_bytes_vec(arg))
    }

    /// Appends one environment variable, stored as `NAME=VALUE`,
    /// unless a host function has already executed or a capacity limit
    /// would be exceeded.
    pub fn push_env(&mut self, var: &str, val: &str) -> (r: Result<(), WasiCommonError>)
        requires
            old(self).wf(),
        ensures
            final(self).wf(),
            final(self).args == old(self).args,
            final(self).fd_map == old(self).fd_map,
            final(self).exit_code == old(self).exit_code,
            final(self).setup_done == old(self).setup_done,
            old(self).setup_done ==> r == Err::<(), WasiCommonError>(WasiCommonError::Sealed)
                && final(self).envs == old(self).envs,
            !old(self).setup_done ==> match spec_push(
                old(self).envs@,
                env_entry_bytes(var@, val@),
            ) {
                Ok(s) => r is Ok && final(self).envs@ == s,
                Err(e) => r == Err::<(), WasiCommonError>(WasiCommonError::StringArray(e))
                    && final(self).envs == old(self).envs,
            },
    {
        if self.setup_done {
            return Err(WasiCommonError::Sealed);
        }
        let mut bytes = vstd::string::StrSliceExecFns::as_bytes_vec(var);
        bytes.push(61u8);
        bytes.extend_from_slice(vstd::string::StrSliceExecFns::as_bytes_vec(val).as_slice());
        proof {
            assert(bytes@ =~= env_entry_bytes(var@, val@));
        }
        self.envs.push_bytes(bytes)
    }

    /// Allocates the next free descriptor for a directory resource.
    pub fn push_dir(
        &mut self,
        dir: u64,
        caps: DirCaps,
        file_caps: FileCaps,
        preopen_dir: String,
    ) -> (r: Result<i32, WasiCommonError>)
        requires
            old(self).wf(),
        ensures
            final(self).wf(),
            final(self).args == old(self).args,
            final(self).envs == old(self).envs,
            final(self).exit_code == old(self).exit_code,
            final(self).setup_done == old(self).setup_done,
            old(self).fd_map@.len() >= 0x7fff_ffff ==> r == Err::<i32, WasiCommonError>(
                WasiCommonError::FdMapFull,
            ) && final(self).fd_map == old(self).fd_map,
            old(self).fd_map@.len() < 0x7fff_ffff ==> ({
                &&& r matches Ok(fd)
                &&& Some(fd) == spec_probe(
                    old(self).fd_map@.dom(),
                    old(self).fd_map.cursor(),
                    0x1_0000_0000,
                )
                &&& !old(self).fd_map@.contains_key(fd)
                &&& final(self).fd_map@ == old(self).fd_map@.insert(
                    fd,
                    FdEntry::Dir(
                        DirEntry {
                            caps,
                            file_caps,
                            preopen_dir: Some(preopen_dir),
                            dir,
                        },
                    ),
                )
                &&& final(self).fd_map.cursor() == spec_next_fd(fd)
            }),
    {
        self.fd_map.push(FdEntry::Dir(DirEntry::new(caps, file_caps, Some(preopen_dir), dir)))
    }

    /// Allocates the next free descriptor for a file resource.
    pub fn push_file(&mut self, file: FileResource, caps: FileCaps) -> (r: Result<
        i32,
        WasiCommonError,
    >)
        requires
            old(self).wf(),
        ensures
            final(self).wf(),
            final(self).args == old(self).args,
            final(self).envs == old(self).envs,
            final(self).exit_code == old(self).exit_code,
            final(self).setup_done == old(self).setup_done,
            old(self).fd_map@.len() >= 0x7fff_ffff ==> r == Err::<i32, WasiCommonError>(
                WasiCommonError::FdMapFull,
            ) && final(self).fd_map == old(self).fd_map,
            old(self).fd_map@.len() < 0x7fff_ffff ==> ({
                &&& r matches Ok(fd)
                &&& Some(fd) == spec_probe(
                    old(self).fd_map@.dom(),
                    old(self).fd_map.cursor(),
                    0x1_0000_0000,
                )
                &&& !old(self).fd_map@.contains_key(fd)
                &&& final(self).fd_map@ == old(self).fd_map@.insert(
                    fd,
                    FdEntry::File(FileEntry { caps, file }),
                )
                &&& final(self).fd_map.cursor() == spec_next_fd(fd)
            }),
    {
        self.fd_map.push(FdEntry::File(FileEntry::new(caps, file)))
    }

    /// Places a file resource at a chosen descriptor, overwriting
    /// whatever was there.
    pub fn insert_file(&mut self, fd: i32, file: FileResource, caps: FileCaps)
        requires
            old(self).wf(),
            old(self).fd_map@.contains_key(fd) || old(self).fd_map@.len() < 0x7fff_ffff,
        ensures
            final(self).wf(),
            final(self).args == old(self).args,
            final(self).envs == old(self).envs,
            final(self).exit_code == old(self).exit_code,
            final(self).setup_done == old(self).setup_done,
            final(self).fd_map@ == old(self).fd_map@.insert(
                fd,
                FdEntry::File(FileEntry { caps, file }),
            ),
            final(self).fd_map.cursor() == old(self).fd_map.cursor(),
    {
        self.fd_map.insert_at(fd, FdEntry::File(FileEntry::new(caps, file)))
    }

    /// Redirects standard input (descriptor 0) to `file`, with the
    /// capabilities [`spec_stdio_caps`] grants it.
    pub fn set_stdin(&mut self, file: FileResource)
        requires
            old(self).wf(),
            old(self).fd_map@.contains_key(0) || old(self).fd_map@.len() < 0x7fff_ffff,
        ensures
            final(self).wf(),
            final(self).args == old(self).args,
            final(self).envs == old(self).envs,
            final(self).exit_code == old(self).exit_code,
            final(self).setup_done == old(self).setup_done,
            final(self).fd_map@ == old(self).fd_map@.insert(
                0,
                FdEntry::File(FileEntry { caps: FileCaps { bits: spec_stdio_caps(file) }, file }),
            ),
            final(self).fd_map.cursor() == old(self).fd_map.cursor(),
    {
        let caps = Self::stdio_caps(&file);
        self.insert_file(0, file, caps)
    }

    /// Redirects standard output (descriptor 1) to `file`, with the
    /// capabilities [`spec_stdio_caps`] grants it.
    pub fn set_stdout(&mut self, file: FileResource)
        requires
            old(self).wf(),
            old(self).fd_map@.contains_key(1) || old(self).fd_map@.len() < 0x7fff_ffff,
        ensures
            final(self).wf(),
            final(self).args == old(self).args,
            final(self).envs == old(self).envs,
            final(self).exit_code == old(self).exit_code,
            final(self).setup_done == old(self).setup_done,
            final(self).fd_map@ == old(self).fd_map@.insert(
                1,
                FdEntry::File(FileEntry { caps: FileCaps { bits: spec_stdio_caps(file) }, file }),
            ),
            final(self).fd_map.cursor() == old(self).fd_map.cursor(),
    {
        let caps = Self::stdio_caps(&file);
        self.insert_file(1, file, caps)
    }

    /// Redirects standard error (descriptor 2) to `file`, with the
    /// capabilities [`spec_stdio_caps`] grants it.
    pub fn set_stderr(&mut self, file: FileResource)
        requires
            old(self).wf(),
            old(self).fd_map@.contains_key(2) || old(self).fd_map@.len() < 0x7fff_ffff,
        ensures
            final(self).wf(),
            final(self).args == old(self).args,
            final(self).envs == old(self).envs,
            final(self).exit_code == old(self).exit_code,
            final(self).setup_done == old(self).setup_done,
            final(self).fd_map@ == old(self).fd_map@.insert(
                2,
                FdEntry::File(FileEntry { caps: FileCaps { bits: spec_stdio_caps(file) }, file }),
            ),
            final(self).fd_map.cursor() == old(self).fd_map.cursor(),
    {
        let caps = Self::stdio_caps(&file);
        self.insert_file(2, file, caps)
    }

    /// The capabilities a standard stream gets; see
    /// [`spec_stdio_caps`].
    pub fn stdio_caps(file: &FileResource) -> (r: FileCaps)
        ensures
            r.bits == spec_stdio_caps(*file),
    {
        let mut caps = FileCaps::all();
        if file.is_tty() {
            caps = FileCaps::from_bits(caps.bits & !(FILE_CAP_TELL | FILE_CAP_SEEK));
        }
        caps
    }

    /// Records the exit code the guest asked to terminate with.  The
    /// embedding layer is responsible for unwinding guest execution;
    /// this state only records the code.
    pub fn proc_exit(&mut self, code: i32)
        ensures
            final(self).exit_code == code,
            final(self).setup_done,
            final(self).args == old(self).args,
            final(self).envs == old(self).envs,
            final(self).fd_map == old(self).fd_map,
    {
        self.exit_code = code;
        self.setup_done = true;
    }

    /// The argument count and the cumulative byte size of the
    /// arguments, one NUL terminator counted per entry.
    pub fn args_sizes_get(&self) -> (r: (u32, u32))
        requires
            self.wf(),
        ensures
            r.0 == self.args@.len(),
            r.1 == cum_size(self.args@),
    {
        self.args.sizes()
    }

    /// The environment-variable count and the cumulative byte size of
    /// the `NAME=VALUE` entries, one NUL terminator counted per entry.
    pub fn environ_sizes_get(&self) -> (r: (u32, u32))
        requires
            self.wf(),
        ensures
            r.0 == self.envs@.len(),
            r.1 == cum_size(self.envs@),
    {
        self.envs.sizes()
    }
}

} // verus!
