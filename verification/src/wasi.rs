//! The WASI host functions: the ABI marshalling core.
//!
//! Each function receives raw guest-supplied offsets into linear
//! memory, reads the shared environment state, and writes results back
//! into guest memory.  All offsets, lengths and counts are unsigned
//! 32-bit little-endian words.  A success returns the errno 0; a
//! missing capability, an unknown descriptor or an out-of-bounds
//! memory request reports a non-zero errno and leaves both the memory
//! and the state untouched.  Every host function seals the environment
//! state: after the first one has executed, no further argument or
//! environment pushes are accepted, so the sizes reported to the guest
//! can never go stale.

use vstd::prelude::*;

use crate::environ::Environ;
use crate::fd_map::FdEntry;
use crate::file::FileEntry;
use crate::file::FileResource;
use crate::file::FILE_CAP_WRITE;
use crate::memory::splice;
use crate::memory::GuestMemory;
use crate::string_array::cum_size;
use crate::string_array::lemma_cum_size_nonneg;
use crate::string_array::lemma_cum_size_take_le;
use crate::string_array::lemma_cum_size_take_succ;
use crate::string_array::StringArray;
use vstd::bytes::spec_u32_from_le_bytes;
use vstd::bytes::spec_u32_to_le_bytes;
use vstd::bytes::u32_to_le_bytes;
use vstd::pervasive::unreached;

verus! {

/// Success.
pub const ERRNO_SUCCESS: u32 = 0;

/// Bad file descriptor.
pub const ERRNO_BADF: u32 = 8;

/// Out-of-bounds memory access.
pub const ERRNO_FAULT: u32 = 21;

/// Invalid argument.
pub const ERRNO_INVAL: u32 = 28;

/// The descriptor's capability set does not permit the operation.
pub const ERRNO_NOTCAPABLE: u32 = 76;

/// The string-buffer region as `args_get` and `environ_get` lay it
/// out: each entry's bytes in order, a NUL terminator after each.
pub open spec fn packed(s: Seq<Seq<u8>>) -> Seq<u8>
    decreases s.len(),
{
    if s.len() == 0 {
        Seq::empty()
    } else {
        packed(s.drop_last()) + s.last() + seq![0u8]
    }
}

/// The pointer-array region as `args_get` and `environ_get` lay it
/// out: for each entry, the little-endian 32-bit offset at which its
/// copy starts in a string buffer based at `base`.
pub open spec fn ptr_table(s: Seq<Seq<u8>>, base: int) -> Seq<u8>
    decreases s.len(),
{
    if s.len() == 0 {
        Seq::empty()
    } else {
        ptr_table(s.drop_last(), base) + spec_u32_to_le_bytes(
            (base + cum_size(s.drop_last())) as u32,
        )
    }
}

/// The packed buffer is exactly as long as the cumulative size the
/// guest was told.
pub proof fn lemma_packed_len(s: Seq<Seq<u8>>)
    ensures
        packed(s).len() == cum_size(s),
    decreases s.len(),
{
    if s.len() > 0 {
        lemma_packed_len(s.drop_last());
    }
}

/// The pointer table holds one 32-bit word per entry.
pub proof fn lemma_ptr_table_len(s: Seq<Seq<u8>>, base: int)
    ensures
        ptr_table(s, base).len() == 4 * s.len(),
    decreases s.len(),
{
    vstd::bytes::lemma_auto_spec_u32_to_from_le_bytes();
    if s.len() > 0 {
        lemma_ptr_table_len(s.drop_last(), base);
    }
}

/// Packing one more entry appends its bytes and a NUL.
pub proof fn lemma_packed_take_succ(s: Seq<Seq<u8>>, i: int)
    requires
        0 <= i < s.len(),
    ensures
        packed(s.take(i + 1)) == packed(s.take(i)) + s[i] + seq![0u8],
{
    assert(s.take(i + 1).drop_last() =~= s.take(i));
    assert(s.take(i + 1).last() == s[i]);
    assert(s.take(i + 1).len() == i + 1);
}

/// Extending the pointer table by one entry appends the word for the
/// next free position of the string buffer.
pub proof fn lemma_ptr_table_take_succ(s: Seq<Seq<u8>>, base: int, i: int)
    requires
        0 <= i < s.len(),
    ensures
        ptr_table(s.take(i + 1), base) == ptr_table(s.take(i), base) + spec_u32_to_le_bytes(
            (base + cum_size(s.take(i))) as u32,
        ),
{
    assert(s.take(i + 1).drop_last() =~= s.take(i));
    assert(s.take(i + 1).len() == i + 1);
}


/// Each entry of the packed string buffer sits at the offset given by
/// the cumulative size of the entries before it, byte for byte, with a
/// NUL terminator right after it.
pub proof fn lemma_packed_entry(s: Seq<Seq<u8>>, i: int)
    requires
        0 <= i < s.len(),
    ensures
        packed(s).len() == cum_size(s),
        cum_size(s.take(i)) + s[i].len() < cum_size(s),
        packed(s).subrange(cum_size(s.take(i)), cum_size(s.take(i)) + s[i].len()) == s[i],
        packed(s)[cum_size(s.take(i)) + s[i].len()] == 0,
    decreases s.len(),
{
    lemma_packed_len(s);
    lemma_cum_size_nonneg(s.take(i));
    let d = s.drop_last();
    lemma_packed_len(d);
    if i == s.len() - 1 {
        assert(s.take(i) =~= d);
        assert(packed(s).subrange(cum_size(d), cum_size(d) + s[i].len()) =~= s[i]);
    } else {
        lemma_packed_entry(d, i);
        assert(s.take(i) =~= d.take(i));
        assert(d[i] == s[i]);
        let start = cum_size(s.take(i));
        assert(packed(s).subrange(start, start + s[i].len()) =~= packed(d).subrange(
            start,
            start + s[i].len(),
        ));
        assert(packed(s)[start + s[i].len()] == packed(d)[start + s[i].len()]);
    }
}

/// Each word of the pointer table is the little-endian offset of its
/// entry's copy: the buffer base plus the cumulative size of the
/// entries before it.
pub proof fn lemma_ptr_table_entry(s: Seq<Seq<u8>>, base: int, i: int)
    requires
        0 <= i < s.len(),
    ensures
        ptr_table(s, base).len() == 4 * s.len(),
        ptr_table(s, base).subrange(4 * i, 4 * i + 4) == spec_u32_to_le_bytes(
            (base + cum_size(s.take(i))) as u32,
        ),
    decreases s.len(),
{
    vstd::bytes::lemma_auto_spec_u32_to_from_le_bytes();
    lemma_ptr_table_len(s, base);
    let d = s.drop_last();
    lemma_ptr_table_len(d, base);
    if i == s.len() - 1 {
        assert(s.take(i) =~= d);
        assert(ptr_table(s, base).subrange(4 * i, 4 * i + 4) =~= spec_u32_to_le_bytes(
            (base + cum_size(d)) as u32,
        ));
    } else {
        lemma_ptr_table_entry(d, base, i);
        assert(s.take(i) =~= d.take(i));
        assert(ptr_table(s, base).subrange(4 * i, 4 * i + 4) =~= ptr_table(d, base).subrange(
            4 * i,
            4 * i + 4,
        ));
    }
}

/// What a guest reads back after a successful `args_get` or
/// `environ_get`, when it laid the two regions out without overlap and
/// sized them as the matching `*_sizes_get` reported: the pointer word
/// for each entry addresses that entry's copy in the string buffer,
/// the copy reproduces the pushed bytes exactly and in push order, and
/// a NUL bounds it.
pub proof fn lemma_get_reproduces_entries(
    m0: Seq<u8>,
    s: Seq<Seq<u8>>,
    ptr_off: int,
    buf_off: int,
    i: int,
)
    requires
        0 <= i < s.len(),
        0 <= ptr_off,
        0 <= buf_off,
        ptr_off + 4 * s.len() <= m0.len(),
        buf_off + cum_size(s) <= m0.len(),
        m0.len() <= 0xffff_ffff,
        ptr_off + 4 * s.len() <= buf_off || buf_off + cum_size(s) <= ptr_off,
    ensures
        ({
            let m1 = splice(splice(m0, ptr_off, ptr_table(s, buf_off)), buf_off, packed(s));
            let start = buf_off + cum_size(s.take(i));
            &&& spec_u32_from_le_bytes(m1.subrange(ptr_off + 4 * i, ptr_off + 4 * i + 4)) == start
            &&& m1.subrange(start, start + s[i].len()) == s[i]
            &&& m1[start + s[i].len()] == 0
        }),
{
    vstd::bytes::lemma_auto_spec_u32_to_from_le_bytes();
    lemma_packed_entry(s, i);
    lemma_ptr_table_entry(s, buf_off, i);
    lemma_cum_size_nonneg(s.take(i));
    lemma_cum_size_nonneg(s);
    let inner = splice(m0, ptr_off, ptr_table(s, buf_off));
    let m1 = splice(inner, buf_off, packed(s));
    let start = buf_off + cum_size(s.take(i));
    assert(m1.subrange(start, start + s[i].len()) =~= packed(s).subrange(
        cum_size(s.take(i)),
        cum_size(s.take(i)) + s[i].len(),
    ));
    assert(m1[start + s[i].len()] == packed(s)[cum_size(s.take(i)) + s[i].len()]);
    assert(m1.subrange(ptr_off + 4 * i, ptr_off + 4 * i + 4) =~= ptr_table(
        s,
        buf_off,
    ).subrange(4 * i, 4 * i + 4));
    assert((buf_off + cum_size(s.take(i))) as u32 == start);
}

/// Writes an array's count and cumulative size as two little-endian
/// 32-bit words at the given offsets.
fn write_sizes(arr: &StringArray, mem: &mut GuestMemory, count_off: u32, size_off: u32) -> (errno:
    u32)
    requires
        arr.wf(),
        old(mem).wf(),
    ensures
        final(mem).wf(),
        errno == ERRNO_SUCCESS <==> old(mem).in_bounds(count_off, 4) && old(mem).in_bounds(
            size_off,
            4,
        ),
        errno == ERRNO_SUCCESS ==> final(mem)@ == splice(
            splice(old(mem)@, count_off as int, spec_u32_to_le_bytes(arr@.len() as u32)),
            size_off as int,
            spec_u32_to_le_bytes(cum_size(arr@) as u32),
        ),
        errno != ERRNO_SUCCESS ==> errno == ERRNO_FAULT && *final(mem) == *old(mem),
{
    let (count, size) = arr.sizes();
    let mem_size = mem.size();
    if (count_off as u64) + 4 > (mem_size as u64) || (size_off as u64) + 4 > (mem_size as u64) {
        return ERRNO_FAULT;
    }
    let ok1 = mem.write_u32_le(count_off, count);
    let ok2 = mem.write_u32_le(size_off, size);
    ERRNO_SUCCESS
}

/// Copies an array's entries into guest memory: each entry's bytes
/// plus a NUL into the string buffer at `buf_off`, and for each entry
/// the 32-bit offset of its copy into the pointer array at `ptr_off`.
fn write_entries(arr: &StringArray, mem: &mut GuestMemory, ptr_off: u32, buf_off: u32) -> (errno:
    u32)
    requires
        arr.wf(),
        old(mem).wf(),
    ensures
        final(mem).wf(),
        errno == ERRNO_SUCCESS <==> old(mem).in_bounds(ptr_off, 4 * arr@.len() as int)
            && old(mem).in_bounds(buf_off, cum_size(arr@)),
        errno == ERRNO_SUCCESS ==> final(mem)@ == splice(
            splice(old(mem)@, ptr_off as int, ptr_table(arr@, buf_off as int)),
            buf_off as int,
            packed(arr@),
        ),
        errno != ERRNO_SUCCESS ==> errno == ERRNO_FAULT && *final(mem) == *old(mem),
{
    proof {
        lemma_cum_size_nonneg(arr@);
    }
    let (count, size) = arr.sizes();
    let mem_size = mem.size();
    if (ptr_off as u64) + 4 * (count as u64) > (mem_size as u64) {
        return ERRNO_FAULT;
    }
    if (buf_off as u64) + (size as u64) > (mem_size as u64) {
        return ERRNO_FAULT;
    }
    let entries = arr.entries();
    let n: usize = entries.len();
    let mut ptrs: Vec<u8> = Vec::new();
    let mut buf: Vec<u8> = Vec::new();
    let mut cursor: u32 = buf_off;
    let mut i: usize = 0;
    proof {
        assert(entries.deep_view() == arr@);
        assert(arr@.take(0) =~= Seq::<Seq<u8>>::empty());
        assert(ptrs@ =~= ptr_table(arr@.take(0), buf_off as int));
        assert(buf@ =~= packed(arr@.take(0)));
    }
    while i < n
        invariant
            arr.wf(),
            entries.deep_view() == arr@,
            n == arr@.len(),
            i <= n,
            buf_off + cum_size(arr@) <= 0xffff_ffff,
            cursor == buf_off + cum_size(arr@.take(i as int)),
            ptrs@ == ptr_table(arr@.take(i as int), buf_off as int),
            buf@ == packed(arr@.take(i as int)),
        decreases n - i,
    {
        proof {
            lemma_cum_size_nonneg(arr@.take(i as int));
            lemma_cum_size_take_succ(arr@, i as int);
            lemma_cum_size_take_le(arr@, i as int + 1);
            assert(entries.deep_view()[i as int] == entries@[i as int].deep_view());
            assert(entries@[i as int]@ == arr@[i as int]);
        }
        let e: &Vec<u8> = &entries[i];
        let word = u32_to_le_bytes(cursor);
        ptrs.extend_from_slice(word.as_slice());
        buf.extend_from_slice(e.as_slice());
        buf.push(0u8);
        proof {
            lemma_ptr_table_take_succ(arr@, buf_off as int, i as int);
            lemma_packed_take_succ(arr@, i as int);
            assert(ptrs@ =~= ptr_table(arr@.take(i as int + 1), buf_off as int));
            assert(buf@ =~= packed(arr@.take(i as int + 1)));
        }
        cursor = cursor + (e.len() as u32) + 1;
        i = i + 1;
    }
    proof {
        assert(arr@.take(n as int) =~= arr@);
        lemma_ptr_table_len(arr@, buf_off as int);
        lemma_packed_len(arr@);
    }
    let ok1 = mem.write_bytes(ptr_off, ptrs.as_slice());
    let ok2 = mem.write_bytes(buf_off, buf.as_slice());
    proof {
        assert(ok1);
        assert(ok2);
    }
    ERRNO_SUCCESS
}

/// `args_sizes_get`: writes the argument count and the cumulative
/// byte size of the arguments (one NUL counted per entry) as two
/// little-endian 32-bit words at the given offsets.
pub fn wasi_args_sizes_get(
    env: &mut Environ,
    mem: &mut GuestMemory,
    args_size_offset: u32,
    args_buf_size_offset: u32,
) -> (errno: u32)
    requires
        old(env).wf(),
        old(mem).wf(),
    ensures
        final(env).wf(),
        final(mem).wf(),
        final(env).setup_done,
        final(env).args == old(env).args,
        final(env).envs == old(env).envs,
        final(env).fd_map == old(env).fd_map,
        final(env).exit_code == old(env).exit_code,
        errno == ERRNO_SUCCESS <==> old(mem).in_bounds(args_size_offset, 4) && old(mem).in_bounds(
            args_buf_size_offset,
            4,
        ),
        errno == ERRNO_SUCCESS ==> final(mem)@ == splice(
            splice(
                old(mem)@,
                args_size_offset as int,
                spec_u32_to_le_bytes(old(env).args@.len() as u32),
            ),
            args_buf_size_offset as int,
            spec_u32_to_le_bytes(cum_size(old(env).args@) as u32),
        ),
        errno != ERRNO_SUCCESS ==> errno == ERRNO_FAULT && *final(mem) == *old(mem),
{
    env.setup_done = true;
    write_sizes(&env.args, mem, args_size_offset, args_buf_size_offset)
}

/// `environ_sizes_get`: writes the environment-variable count and the
/// cumulative byte size of the `NAME=VALUE` entries (one NUL counted
/// per entry) as two little-endian 32-bit words at the given offsets.
pub fn wasi_environ_sizes_get(
    env: &mut Environ,
    mem: &mut GuestMemory,
    environ_size_offset: u32,
    environ_buf_size_offset: u32,
) -> (errno: u32)
    requires
        old(env).wf(),
        old(mem).wf(),
    ensures
        final(env).wf(),
        final(mem).wf(),
        final(env).setup_done,
        final(env).args == old(env).args,
        final(env).envs == old(env).envs,
        final(env).fd_map == old(env).fd_map,
        final(env).exit_code == old(env).exit_code,
        errno == ERRNO_SUCCESS <==> old(mem).in_bounds(environ_size_offset, 4) && old(
            mem,
        ).in_bounds(environ_buf_size_offset, 4),
        errno == ERRNO_SUCCESS ==> final(mem)@ == splice(
            splice(
                old(mem)@,
                environ_size_offset as int,
                spec_u32_to_le_bytes(old(env).envs@.len() as u32),
            ),
            environ_buf_size_offset as int,
            spec_u32_to_le_bytes(cum_size(old(env).envs@) as u32),
        ),
        errno != ERRNO_SUCCESS ==> errno == ERRNO_FAULT && *final(mem) == *old(mem),
{
    env.setup_done = true;
    write_sizes(&env.envs, mem, environ_size_offset, environ_buf_size_offset)
}

/// `args_get`: copies each argument's bytes, NUL-terminated, into the
/// string-buffer region at `args_buf_offset`, in push order, and
/// writes the 32-bit offset of each copy into the pointer-array region
/// at `args_offset`.
pub fn wasi_args_get(
    env: &mut Environ,
    mem: &mut GuestMemory,
    args_offset: u32,
    args_buf_offset: u32,
) -> (errno: u32)
    requires
        old(env).wf(),
        old(mem).wf(),
    ensures
        final(env).wf(),
        final(mem).wf(),
        final(env).setup_done,
        final(env).args == old(env).args,
        final(env).envs == old(env).envs,
        final(env).fd_map == old(env).fd_map,
        final(env).exit_code == old(env).exit_code,
        errno == ERRNO_SUCCESS <==> old(mem).in_bounds(args_offset, 4 * old(env).args@.len() as int)
            && old(mem).in_bounds(args_buf_offset, cum_size(old(env).args@)),
        errno == ERRNO_SUCCESS ==> final(mem)@ == splice(
            splice(old(mem)@, args_offset as int, ptr_table(old(env).args@, args_buf_offset as int)),
            args_buf_offset as int,
            packed(old(env).args@),
        ),
        errno != ERRNO_SUCCESS ==> errno == ERRNO_FAULT && *final(mem) == *old(mem),
{
    env.setup_done = true;
    write_entries(&env.args, mem, args_offset, args_buf_offset)
}

/// `environ_get`: copies each `NAME=VALUE` entry's bytes,
/// NUL-terminated, into the string-buffer region at
/// `environ_buf_offset`, in push order, and writes the 32-bit offset
/// of each copy into the pointer-array region at `environ_offset`.
pub fn wasi_environ_get(
    env: &mut Environ,
    mem: &mut GuestMemory,
    environ_offset: u32,
    environ_buf_offset: u32,
) -> (errno: u32)
    requires
        old(env).wf(),
        old(mem).wf(),
    ensures
        final(env).wf(),
        final(mem).wf(),
        final(env).setup_done,
        final(env).args == old(env).args,
        final(env).envs == old(env).envs,
        final(env).fd_map == old(env).fd_map,
        final(env).exit_code == old(env).exit_code,
        errno == ERRNO_SUCCESS <==> old(mem).in_bounds(environ_offset, 4 * old(env).envs@.len() as int)
            && old(mem).in_bounds(environ_buf_offset, cum_size(old(env).envs@)),
        errno == ERRNO_SUCCESS ==> final(mem)@ == splice(
            splice(
                old(mem)@,
                environ_offset as int,
                ptr_table(old(env).envs@, environ_buf_offset as int),
            ),
            environ_buf_offset as int,
            packed(old(env).envs@),
        ),
        errno != ERRNO_SUCCESS ==> errno == ERRNO_FAULT && *final(mem) == *old(mem),
{
    env.setup_done = true;
    write_entries(&env.envs, mem, environ_offset, environ_buf_offset)
}


/// The buffer offset named by entry `i` of the iovec array at `off`.
pub open spec fn iov_ptr(m: Seq<u8>, off: int, i: int) -> u32 {
    spec_u32_from_le_bytes(m.subrange(off + 8 * i, off + 8 * i + 4))
}

/// The buffer length named by entry `i` of the iovec array at `off`.
pub open spec fn iov_len(m: Seq<u8>, off: int, i: int) -> u32 {
    spec_u32_from_le_bytes(m.subrange(off + 8 * i + 4, off + 8 * i + 8))
}

/// Every buffer the iovec array names stays inside the region.
pub open spec fn iovs_data_in_bounds(m: Seq<u8>, off: int, n: int) -> bool {
    forall|i: int| 0 <= i < n ==> iov_ptr(m, off, i) + iov_len(m, off, i) <= m.len()
}

/// The bytes the iovec array describes, concatenated in entry order.
pub open spec fn gathered(m: Seq<u8>, off: int, n: int) -> Seq<u8>
    decreases n,
{
    if n <= 0 {
        Seq::empty()
    } else {
        gathered(m, off, n - 1) + m.subrange(
            iov_ptr(m, off, n - 1) as int,
            iov_ptr(m, off, n - 1) + iov_len(m, off, n - 1),
        )
    }
}

/// The errno `fd_write` must report: bad descriptor, then missing
/// write capability, then a resource this shim cannot write, then an
/// out-of-bounds memory request, then a total too large for the
/// 32-bit count, and success only past all of them.
pub open spec fn fd_write_errno(
    table: Map<i32, FdEntry>,
    m: Seq<u8>,
    fd: i32,
    iovs_off: u32,
    iovs_len: u32,
    nwritten_off: u32,
) -> u32 {
    if !table.contains_key(fd) {
        ERRNO_BADF
    } else {
        match table[fd] {
            FdEntry::Dir(_) => ERRNO_BADF,
            FdEntry::File(f) => {
                if f.caps.bits & FILE_CAP_WRITE != FILE_CAP_WRITE {
                    ERRNO_NOTCAPABLE
                } else {
                    match f.file {
                        FileResource::WritePipe(_) => {
                            if !(iovs_off + 8 * iovs_len <= m.len() && nwritten_off + 4 <= m.len()
                                && iovs_data_in_bounds(m, iovs_off as int, iovs_len as int)) {
                                ERRNO_FAULT
                            } else if gathered(m, iovs_off as int, iovs_len as int).len()
                                > 0xffff_ffff {
                                ERRNO_INVAL
                            } else {
                                ERRNO_SUCCESS
                            }
                        },
                        _ => ERRNO_BADF,
                    }
                }
            },
        }
    }
}

/// `fd_write`: validates that `fd` maps to a write-capable in-memory
/// sink, reads each iovec's offset and length from the array at
/// `iovs_offset`, forwards the referenced bytes to the sink in entry
/// order, and reports the total written as a little-endian 32-bit word
/// at `nwritten_offset`.  On any failure, neither the memory nor any
/// resource is mutated.
pub fn wasi_fd_write(
    env: &mut Environ,
    mem: &mut GuestMemory,
    fd: i32,
    iovs_offset: u32,
    iovs_len: u32,
    nwritten_offset: u32,
) -> (errno: u32)
    requires
        old(env).wf(),
        old(mem).wf(),
    ensures
        final(env).wf(),
        final(mem).wf(),
        final(env).setup_done,
        final(env).args == old(env).args,
        final(env).envs == old(env).envs,
        final(env).exit_code == old(env).exit_code,
        errno == fd_write_errno(
            old(env).fd_map@,
            old(mem)@,
            fd,
            iovs_offset,
            iovs_len,
            nwritten_offset,
        ),
        errno != ERRNO_SUCCESS ==> final(env).fd_map == old(env).fd_map && *final(mem) == *old(
            mem,
        ),
        errno == ERRNO_SUCCESS ==> ({
            let data = gathered(old(mem)@, iovs_offset as int, iovs_len as int);
            &&& old(env).fd_map@.contains_key(fd)
            &&& (old(env).fd_map@[fd] matches FdEntry::File(f) && ({
                &&& final(env).fd_map@ == old(env).fd_map@.insert(fd, final(env).fd_map@[fd])
                &&& (final(env).fd_map@[fd] matches FdEntry::File(g) && g.caps == f.caps && (
                f.file matches FileResource::WritePipe(p) && (
                g.file matches FileResource::WritePipe(q) && q@ == p@ + data)))
            }))
            &&& final(env).fd_map.cursor() == old(env).fd_map.cursor()
            &&& final(mem)@ == splice(
                old(mem)@,
                nwritten_offset as int,
                spec_u32_to_le_bytes(data.len() as u32),
            )
        }),
{
    env.setup_done = true;
    let ghost table = env.fd_map@;
    let ghost m0 = mem@;
    match env.fd_map.get(fd) {
        None => {
            return ERRNO_BADF;
        },
        Some(entry) => match entry {
            FdEntry::Dir(_) => {
                return ERRNO_BADF;
            },
            FdEntry::File(f) => {
                if !f.caps.contains(FILE_CAP_WRITE) {
                    return ERRNO_NOTCAPABLE;
                }
                match &f.file {
                    FileResource::WritePipe(_) => {},
                    _ => {
                        return ERRNO_BADF;
                    },
                }
            },
        },
    }
    let mem_size = mem.size();
    if (iovs_offset as u64) + 8 * (iovs_len as u64) > (mem_size as u64) {
        return ERRNO_FAULT;
    }
    if (nwritten_offset as u64) + 4 > (mem_size as u64) {
        return ERRNO_FAULT;
    }
    let mut data: Vec<u8> = Vec::new();
    let mut i: u32 = 0;
    proof {
        assert(data@ =~= gathered(m0, iovs_offset as int, 0));
    }
    while i < iovs_len
        invariant
            env.wf(),
            mem.wf(),
            env.args == old(env).args,
            env.envs == old(env).envs,
            env.fd_map == old(env).fd_map,
            env.exit_code == old(env).exit_code,
            env.setup_done,
            *mem == *old(mem),
            m0 == old(mem)@,
            table == old(env).fd_map@,
            mem_size == m0.len(),
            table.contains_key(fd),
            (table[fd] matches FdEntry::File(f) && f.caps.bits & FILE_CAP_WRITE == FILE_CAP_WRITE
                && (f.file matches FileResource::WritePipe(_))),
            iovs_offset + 8 * iovs_len <= m0.len(),
            nwritten_offset + 4 <= m0.len(),
            i <= iovs_len,
            forall|j: int|
                0 <= j < i ==> iov_ptr(m0, iovs_offset as int, j) + iov_len(
                    m0,
                    iovs_offset as int,
                    j,
                ) <= m0.len(),
            data@ == gathered(m0, iovs_offset as int, i as int),
        decreases iovs_len - i,
    {
        let entry_off = iovs_offset + 8 * i;
        let ptr = match mem.read_u32_le(entry_off) {
            Some(v) => v,
            None => unreached(),
        };
        let len = match mem.read_u32_le(entry_off + 4) {
            Some(v) => v,
            None => unreached(),
        };
        proof {
            assert(mem@.subrange(entry_off as int, entry_off + 4) =~= m0.subrange(
                iovs_offset + 8 * (i as int),
                iovs_offset + 8 * (i as int) + 4,
            ));
            assert(mem@.subrange(entry_off + 4, entry_off + 8) =~= m0.subrange(
                iovs_offset + 8 * (i as int) + 4,
                iovs_offset + 8 * (i as int) + 8,
            ));
        }
        if (ptr as u64) + (len as u64) > (mem_size as u64) {
            return ERRNO_FAULT;
        }
        let mut chunk = match mem.read_bytes(ptr, len) {
            Some(v) => v,
            None => unreached(),
        };
        data.append(&mut chunk);
        proof {
            assert(data@ =~= gathered(m0, iovs_offset as int, i as int + 1));
        }
        i = i + 1;
    }
    if data.len() > u32::MAX as usize {
        return ERRNO_INVAL;
    }
    let total = data.len() as u32;
    let taken = env.fd_map.take(fd);
    proof {
        vstd::set::axiom_set_remove_len(table.dom(), fd);
        assert(env.fd_map@.dom() =~= table.dom().remove(fd));
    }
    match taken {
        Some(FdEntry::File(fe)) => {
            let FileEntry { caps, file } = fe;
            match file {
                FileResource::WritePipe(mut p) => {
                    p.write_all(data.as_slice());
                    env.fd_map.insert_at(
                        fd,
                        FdEntry::File(FileEntry::new(caps, FileResource::WritePipe(p))),
                    );
                    proof {
                        assert(env.fd_map@ =~= table.insert(fd, env.fd_map@[fd]));
                    }
                    let ok = mem.write_u32_le(nwritten_offset, total);
                    proof {
                        assert(ok);
                    }
                    ERRNO_SUCCESS
                },
                _ => unreached(),
            }
        },
        _ => unreached(),
    }
}

/// `proc_exit`: records the exit code the guest asked to terminate
/// with.  Guest execution is expected to be aborted by the embedding
/// runtime observing the code; this call only records it.
pub fn wasi_proc_exit(env: &mut Environ, code: i32)
    ensures
        final(env).exit_code == code,
        final(env).setup_done,
        final(env).args == old(env).args,
        final(env).envs == old(env).envs,
        final(env).fd_map == old(env).fd_map,
{
    env.proc_exit(code);
}

} // verus!
