//! A linear-memory view with offset-and-length access.
//!
//! All data exchanged between the guest and the host crosses through
//! the guest's flat byte-addressable memory.  Every access is checked
//! against the region's size: a request whose offset plus length
//! exceeds the region is rejected rather than clamped.  Offsets and
//! lengths are unsigned 32-bit, matching the guest's address space.

use vstd::prelude::*;

use vstd::bytes::spec_u32_from_le_bytes;
use vstd::bytes::spec_u32_to_le_bytes;
use vstd::bytes::u32_from_le_bytes;
use vstd::bytes::u32_to_le_bytes;

verus! {

/// `s` with the bytes of `d` written at offset `off`; positions outside
/// the written range keep their old value.
pub open spec fn splice(s: Seq<u8>, off: int, d: Seq<u8>) -> Seq<u8> {
    Seq::new(s.len(), |i: int| if off <= i < off + d.len() { d[i - off] } else { s[i] })
}

/// One linear-memory region, at most 4 GiB as the guest's 32-bit
/// address space allows.
pub struct GuestMemory {
    bytes: Vec<u8>,
}

impl View for GuestMemory {
    type V = Seq<u8>;

    closed spec fn view(&self) -> Seq<u8> {
        self.bytes@
    }
}

impl GuestMemory {
    /// The region fits the guest's 32-bit address space.
    pub open spec fn wf(&self) -> bool {
        self@.len() <= 0xffff_ffff
    }

    /// A request for `len` bytes at `off` stays inside the region.
    pub open spec fn in_bounds(&self, off: u32, len: int) -> bool {
        off + len <= self@.len()
    }

    /// Creates a zero-filled region of `size` bytes.
    pub fn new(size: u32) -> (r: GuestMemory)
        ensures
            r@ == Seq::new(size as nat, |i: int| 0u8),
            r.wf(),
    {
        let bytes: Vec<u8> = vec![0u8; size as usize];
        GuestMemory { bytes }
    }

    /// The region's size in bytes.
    pub fn size(&self) -> (r: u32)
        requires
            self.wf(),
        ensures
            r == self@.len(),
    {
        self.bytes.len() as u32
    }

    /// Reads one byte; the offset must be in bounds.
    pub fn byte_at(&self, off: u32) -> (r: u8)
        requires
            self.wf(),
            self.in_bounds(off, 1),
        ensures
            r == self@[off as int],
    {
        self.bytes[off as usize]
    }

    /// Copies `len` bytes starting at `off` out of the region, or
    /// reports an out-of-bounds request.
    pub fn read_bytes(&self, off: u32, len: u32) -> (r: Option<Vec<u8>>)
        requires
            self.wf(),
        ensures
            self.in_bounds(off, len as int) ==> (r matches Some(v) && v@ == self@.subrange(
                off as int,
                off + len,
            )),
            !self.in_bounds(off, len as int) ==> r is None,
    {
        if (off as u64) + (len as u64) > self.bytes.len() as u64 {
            return None;
        }
        let mut out: Vec<u8> = Vec::new();
        let mut i: u32 = 0;
        while i < len
            invariant
                self.wf(),
                off + len <= self@.len(),
                i <= len,
                out@ == self@.subrange(off as int, off + i),
            decreases len - i,
        {
            out.push(self.bytes[(off + i) as usize]);
            proof {
                assert(self@.subrange(off as int, off + i + 1) =~= self@.subrange(
                    off as int,
                    off + i,
                ).push(self@[off + i]));
            }
            i = i + 1;
        }
        Some(out)
    }

    /// Writes `data` at offset `off`, or rejects an out-of-bounds
    /// request without touching the region.
    pub fn write_bytes(&mut self, off: u32, data: &[u8]) -> (ok: bool)
        requires
            old(self).wf(),
        ensures
            final(self).wf(),
            ok <==> old(self).in_bounds(off, data@.len() as int),
            ok ==> final(self)@ == splice(old(self)@, off as int, data@),
            !ok ==> *final(self) == *old(self),
    {
        if data.len() > self.bytes.len() {
            return false;
        }
        if (off as u64) > (self.bytes.len() as u64) - (data.len() as u64) {
            return false;
        }
        let len: usize = data.len();
        let mut i: usize = 0;
        while i < len
            invariant
                len == data@.len(),
                off + len <= self.bytes@.len(),
                self.bytes@.len() == old(self).bytes@.len() <= 0xffff_ffff,
                i <= len,
                forall|k: int|
                    0 <= k < self.bytes@.len() ==> self.bytes@[k] == (if off <= k < off + i {
                        data@[k - off as int]
                    } else {
                        old(self).bytes@[k]
                    }),
            decreases len - i,
        {
            self.bytes[off as usize + i] = data[i];
            i = i + 1;
        }
        proof {
            assert(self.bytes@ =~= splice(old(self)@, off as int, data@));
        }
        true
    }

    /// Reads a little-endian 32-bit word, or reports an out-of-bounds
    /// request.
    pub fn read_u32_le(&self, off: u32) -> (r: Option<u32>)
        requires
            self.wf(),
        ensures
            self.in_bounds(off, 4) ==> r == Some(
                spec_u32_from_le_bytes(self@.subrange(off as int, off + 4)),
            ),
            !self.in_bounds(off, 4) ==> r is None,
    {
        match self.read_bytes(off, 4) {
            Some(v) => Some(u32_from_le_bytes(v.as_slice())),
            None => None,
        }
    }

    /// Writes a little-endian 32-bit word, or rejects an out-of-bounds
    /// request without touching the region.
    pub fn write_u32_le(&mut self, off: u32, v: u32) -> (ok: bool)
        requires
            old(self).wf(),
        ensures
            final(self).wf(),
            ok <==> old(self).in_bounds(off, 4),
            ok ==> final(self)@ == splice(old(self)@, off as int, spec_u32_to_le_bytes(v)),
            !ok ==> *final(self) == *old(self),
    {
        let bytes = u32_to_le_bytes(v);
        self.write_bytes(off, bytes.as_slice())
    }
}

} // verus!
