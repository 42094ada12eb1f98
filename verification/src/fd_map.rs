//! The descriptor table: a map from small integer handles to host-side
//! resource entries.
//!
//! Handles 0, 1 and 2 are reserved for the standard streams, so fresh
//! insertions probe forward from 3.  The probe cursor advances
//! monotonically and wraps on overflow; any handle currently occupied
//! is skipped, so a live handle is never reused.  The table reports a
//! capacity error once `2^31 - 1` entries are live.

use vstd::prelude::*;

use std::collections::HashMap;

use crate::dir::DirEntry;
use crate::error::WasiCommonError;
use crate::file::FileEntry;
use vstd::arithmetic::div_mod::lemma_add_mod_noop;
use vstd::arithmetic::div_mod::lemma_mod_multiples_vanish;
use vstd::arithmetic::div_mod::lemma_small_mod;

verus! {

broadcast use vstd::std_specs::hash::group_hash_axioms;

/// A descriptor-table entry: the tagged union of the resource kinds a
/// handle can map to.
pub enum FdEntry {
    /// A file resource with its capability set.
    File(FileEntry),
    /// A directory resource with its capability sets.
    Dir(DirEntry),
}

/// The handle the probe cursor visits after `fd`: the next integer,
/// wrapping to the most negative value after the most positive one.
pub open spec fn spec_next_fd(fd: i32) -> i32 {
    if fd == i32::MAX {
        i32::MIN
    } else {
        (fd + 1) as i32
    }
}

/// The handle the probe cursor visits `n` steps after `start`.
pub open spec fn fd_after(start: i32, n: nat) -> i32
    decreases n,
{
    if n == 0 {
        start
    } else {
        spec_next_fd(fd_after(start, (n - 1) as nat))
    }
}

/// The first handle not in `dom`, probing from `cur` for at most
/// `fuel` steps.
pub open spec fn spec_probe(dom: Set<i32>, cur: i32, fuel: nat) -> Option<i32>
    decreases fuel,
{
    if fuel == 0 {
        None
    } else if !dom.contains(cur) {
        Some(cur)
    } else {
        spec_probe(dom, spec_next_fd(cur), (fuel - 1) as nat)
    }
}

/// How many probe steps separate `fd` from `start`, as a residue of
/// the number of 32-bit values.
pub open spec fn fd_rank(start: i32, fd: i32) -> int {
    (fd - start) % 0x1_0000_0000
}

/// Probing `n < 2^32` steps from `start` reaches the handle of rank
/// `n`.
proof fn lemma_fd_after_rank(start: i32, n: nat)
    requires
        n < 0x1_0000_0000,
    ensures
        fd_rank(start, fd_after(start, n)) == n,
    decreases n,
{
    let m: int = 0x1_0000_0000;
    if n == 0 {
        lemma_small_mod(0, 0x1_0000_0000);
    } else {
        lemma_fd_after_rank(start, (n - 1) as nat);
        let x = fd_after(start, (n - 1) as nat);
        let a: int = x - start;
        if x == i32::MAX {
            assert(fd_after(start, n) == i32::MIN);
            assert(i32::MIN - start == m * (-1) + (a + 1)) by {
                assert(i32::MIN == i32::MAX + 1 - m);
            }
            lemma_mod_multiples_vanish(-1, a + 1, m);
            assert((i32::MIN - start) % m == (a + 1) % m);
        } else {
            assert(fd_after(start, n) - start == a + 1);
        }
        lemma_add_mod_noop(a, 1, m);
        lemma_small_mod(1, 0x1_0000_0000);
        lemma_small_mod(n, 0x1_0000_0000);
        lemma_small_mod((n - 1) as nat, 0x1_0000_0000);
        assert((a + 1) % m == ((a % m) + (1int % m)) % m);
        assert(a % m == n - 1);
        assert((a + 1) % m == (n as int) % m);
    }
}

/// Within one full wrap of the 32-bit range, probing reaches each
/// handle at most once.
proof fn lemma_fd_after_injective(start: i32, j1: nat, j2: nat)
    requires
        j1 < j2 < 0x1_0000_0000,
    ensures
        fd_after(start, j1) != fd_after(start, j2),
{
    lemma_fd_after_rank(start, j1);
    lemma_fd_after_rank(start, j2);
}

/// If the first `k` handles probed from `start` are all in `dom`, then
/// `dom` holds at least `k` elements.
proof fn lemma_probed_le_card(dom: Set<i32>, start: i32, k: nat)
    requires
        dom.finite(),
        k <= 0x1_0000_0000,
        forall|j: nat| j < k ==> dom.contains(#[trigger] fd_after(start, j)),
    ensures
        k <= dom.len(),
    decreases k,
{
    if k > 0 {
        let last = fd_after(start, (k - 1) as nat);
        let rest = dom.remove(last);
        assert forall|j: nat| j < (k - 1) as nat implies rest.contains(
            #[trigger] fd_after(start, j),
        ) by {
            lemma_fd_after_injective(start, j, (k - 1) as nat);
        }
        lemma_probed_le_card(rest, start, (k - 1) as nat);
    }
}

/// The descriptor table.
pub struct FdMap {
    map: HashMap<i32, FdEntry>,
    next_fd: i32,
}

impl View for FdMap {
    type V = Map<i32, FdEntry>;

    closed spec fn view(&self) -> Map<i32, FdEntry> {
        self.map@
    }
}

impl FdMap {
    /// The probe cursor: the handle at which the next allocation
    /// starts scanning.
    pub closed spec fn cursor(&self) -> i32 {
        self.next_fd
    }

    /// The table never holds more than `2^31 - 1` live entries.
    pub open spec fn wf(&self) -> bool {
        &&& self@.dom().finite()
        &&& self@.len() <= 0x7fff_ffff
    }

    /// Creates an empty table.  New allocations will probe from `3`,
    /// as `0`, `1` and `2` are reserved for stdin, stdout and stderr.
    pub fn new() -> (r: FdMap)
        ensures
            r@ == Map::<i32, FdEntry>::empty(),
            r.cursor() == 3,
            r.wf(),
    {
        FdMap { map: HashMap::new(), next_fd: 3 }
    }

    /// The number of live entries.
    pub fn len(&self) -> (r: usize)
        requires
            self.wf(),
        ensures
            r == self@.len(),
    {
        self.map.len()
    }

    /// The entry at `fd`, if the handle is live.
    pub fn get(&self, fd: i32) -> (r: Option<&FdEntry>)
        ensures
            match r {
                Some(e) => self@.contains_key(fd) && *e == self@[fd],
                None => !self@.contains_key(fd),
            },
    {
        self.map.get(&fd)
    }

    /// Removes and returns the entry at `fd`, if the handle is live.
    /// The probe cursor does not move.
    pub fn take(&mut self, fd: i32) -> (r: Option<FdEntry>)
        requires
            old(self).wf(),
        ensures
            final(self).wf(),
            final(self)@ == old(self)@.remove(fd),
            final(self).cursor() == old(self).cursor(),
            match r {
                Some(e) => old(self)@.contains_key(fd) && e == old(self)@[fd],
                None => !old(self)@.contains_key(fd),
            },
    {
        let r = self.map.remove(&fd);
        proof {
            vstd::set::axiom_set_remove_len(old(self)@.dom(), fd);
            assert(self@.dom() =~= old(self)@.dom().remove(fd));
        }
        r
    }

    /// Inserts a resource at a chosen handle, overwriting whatever was
    /// there; used to populate the reserved standard-stream handles.
    /// The probe cursor does not move.
    pub fn insert_at(&mut self, fd: i32, value: FdEntry)
        requires
            old(self).wf(),
            old(self)@.contains_key(fd) || old(self)@.len() < 0x7fff_ffff,
        ensures
            final(self).wf(),
            final(self)@ == old(self)@.insert(fd, value),
            final(self).cursor() == old(self).cursor(),
    {
        self.map.insert(fd, value);
        proof {
            vstd::set::axiom_set_insert_len(old(self)@.dom(), fd);
            assert(self@.dom() =~= old(self)@.dom().insert(fd));
        }
    }

    /// Inserts a resource at the next free handle found by probing
    /// forward from the cursor, wrapping on overflow and skipping every
    /// live handle; fails once `2^31 - 1` entries are live.  The handle
    /// returned is never one that was live before the call.
    pub fn push(&mut self, value: FdEntry) -> (r: Result<i32, WasiCommonError>)
        requires
            old(self).wf(),
        ensures
            final(self).wf(),
            old(self)@.len() >= 0x7fff_ffff ==> r == Err::<i32, WasiCommonError>(
                WasiCommonError::FdMapFull,
            ) && *final(self) == *old(self),
            old(self)@.len() < 0x7fff_ffff ==> ({
                &&& r matches Ok(fd)
                &&& Some(fd) == spec_probe(old(self)@.dom(), old(self).cursor(), 0x1_0000_0000)
                &&& !old(self)@.contains_key(fd)
                &&& final(self)@ == old(self)@.insert(fd, value)
                &&& final(self).cursor() == spec_next_fd(fd)
            }),
    {
        if self.map.len() == i32::MAX as usize {
            return Err(WasiCommonError::FdMapFull);
        }
        let ghost m0 = self.map@;
        let ghost dom0 = self.map@.dom();
        let ghost start = self.next_fd;
        let ghost mut k: nat = 0;
        loop
            invariant
                m0 == old(self)@,
                start == old(self).cursor(),
                self.map@ == m0,
                dom0 == m0.dom(),
                dom0.finite(),
                m0.len() < 0x7fff_ffff,
                k <= m0.len(),
                self.next_fd == fd_after(start, k),
                forall|j: nat| j < k ==> dom0.contains(#[trigger] fd_after(start, j)),
                spec_probe(dom0, start, 0x1_0000_0000) == spec_probe(
                    dom0,
                    fd_after(start, k),
                    (0x1_0000_0000 - k) as nat,
                ),
            decreases 0x1_0000_0000 - k,
        {
            let new_fd = self.next_fd;
            if new_fd == i32::MAX {
                self.next_fd = i32::MIN;
            } else {
                self.next_fd = new_fd + 1;
            }
            if self.map.contains_key(&new_fd) {
                proof {
                    assert(dom0.contains(fd_after(start, k)));
                    k = k + 1;
                    lemma_probed_le_card(dom0, start, k);
                }
            } else {
                let ghost fuel = (0x1_0000_0000 - k) as nat;
                proof {
                    assert(fuel > 0);
                    assert(spec_probe(dom0, new_fd, fuel) == Some(new_fd));
                }
                self.map.insert(new_fd, value);
                proof {
                    vstd::set::axiom_set_insert_len(dom0, new_fd);
                    assert(self.map@.dom() =~= dom0.insert(new_fd));
                }
                return Ok(new_fd);
            }
        }
    }
}

} // verus!
