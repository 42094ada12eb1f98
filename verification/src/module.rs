//! The importable WASI unit: one environment state seeded with
//! arguments, environment variables and pre-opened directories, under
//! the import namespace `wasi_snapshot_preview1`.
//!
//! The embedding runtime's instance allocation, function registration
//! and calling-convention plumbing are outside this crate; the module
//! here owns the verified state and exposes the host functions of
//! [`crate::wasi`] over it.  The `registered` flag records whether
//! ownership of the underlying instance has been handed to the
//! embedding runtime's import table, in which case releasing it is the
//! runtime's business.

use vstd::prelude::*;

use crate::dir::DirCaps;
use crate::dir::DirEntry;
use crate::dir::DIR_CAPS_ALL;
use crate::environ::env_entry_bytes;
use crate::environ::is_empty_read_stdio;
use crate::environ::is_empty_write_stdio;
use crate::environ::Environ;
use crate::error::InstanceError;
use crate::error::WasiCommonError;
use crate::fd_map::spec_next_fd;
use crate::fd_map::spec_probe;
use crate::fd_map::FdEntry;
use crate::file::FileCaps;
use crate::file::FileResource;
use crate::file::FILE_CAPS_ALL;
use crate::string_array::lemma_push_all_err_stable;
use crate::string_array::lemma_push_all_take_succ;
use crate::string_array::spec_push_all;
use vstd::utf8::encode_utf8;

verus! {

/// The byte strings that a list of argument strings pushes.
pub open spec fn arg_items(args: Option<Vec<&str>>) -> Seq<Seq<u8>> {
    match args {
        Some(list) => list@.map_values(|s: &str| encode_utf8(s@)),
        None => Seq::empty(),
    }
}

/// The `NAME=VALUE` byte strings that a list of environment pairs
/// pushes.
pub open spec fn env_items(envs: Option<Vec<(&str, &str)>>) -> Seq<Seq<u8>> {
    match envs {
        Some(list) => list@.map_values(|p: (&str, &str)| env_entry_bytes(p.0@, p.1@)),
        None => Seq::empty(),
    }
}

/// The (native handle, guest path) pairs of the pre-opened
/// directories.
pub open spec fn dir_items(dirs: Option<Vec<(u64, String)>>) -> Seq<(u64, String)> {
    match dirs {
        Some(list) => list@,
        None => Seq::empty(),
    }
}

/// The table entry a pre-opened directory gets: full directory and
/// file capabilities, the guest path recorded as its pre-open path.
pub open spec fn dir_entry_of(d: (u64, String)) -> FdEntry {
    FdEntry::Dir(
        DirEntry {
            caps: DirCaps { bits: DIR_CAPS_ALL },
            file_caps: FileCaps { bits: FILE_CAPS_ALL },
            preopen_dir: Some(d.1),
            dir: d.0,
        },
    )
}

/// One step of seeding: allocate the next free handle for one
/// pre-opened directory, or fail if the table is full.
pub open spec fn seed_one(m: Map<i32, FdEntry>, cur: i32, d: (u64, String)) -> Option<
    (Map<i32, FdEntry>, i32),
> {
    if m.len() >= 0x7fff_ffff {
        None
    } else {
        match spec_probe(m.dom(), cur, 0x1_0000_0000) {
            Some(fd) => Some((m.insert(fd, dir_entry_of(d)), spec_next_fd(fd))),
            None => None,
        }
    }
}

/// The table and cursor after seeding a whole list of pre-opened
/// directories in order, or nothing if the table filled up.
pub open spec fn spec_seed_dirs(
    m: Map<i32, FdEntry>,
    cur: i32,
    dirs: Seq<(u64, String)>,
) -> Option<(Map<i32, FdEntry>, i32)>
    decreases dirs.len(),
{
    if dirs.len() == 0 {
        Some((m, cur))
    } else {
        match seed_one(m, cur, dirs.first()) {
            Some(mc) => spec_seed_dirs(mc.0, mc.1, dirs.drop_first()),
            None => None,
        }
    }
}

/// Seeding one more directory continues from wherever the prefix
/// ended.
pub proof fn lemma_seed_dirs_take_succ(
    m: Map<i32, FdEntry>,
    cur: i32,
    dirs: Seq<(u64, String)>,
    i: int,
)
    requires
        0 <= i < dirs.len(),
    ensures
        spec_seed_dirs(m, cur, dirs.take(i + 1)) == match spec_seed_dirs(m, cur, dirs.take(i)) {
            Some(mc) => seed_one(mc.0, mc.1, dirs[i]),
            None => None,
        },
    decreases i,
{
    if i == 0 {
        assert(dirs.take(1).first() == dirs[0]);
        assert(dirs.take(1).drop_first() =~= Seq::<(u64, String)>::empty());
        assert(dirs.take(0) =~= Seq::<(u64, String)>::empty());
        if let Some(mc) = seed_one(m, cur, dirs[0]) {
            assert(spec_seed_dirs(mc.0, mc.1, dirs.take(1).drop_first()) == Some(mc));
        }
    } else {
        assert(dirs.take(i + 1).first() == dirs[0]);
        assert(dirs.take(i).first() == dirs[0]);
        assert(dirs.take(i + 1).drop_first() =~= dirs.drop_first().take(i));
        assert(dirs.take(i).drop_first() =~= dirs.drop_first().take(i - 1));
        match seed_one(m, cur, dirs[0]) {
            Some(mc) => {
                lemma_seed_dirs_take_succ(mc.0, mc.1, dirs.drop_first(), i - 1);
                assert(dirs.drop_first()[i - 1] == dirs[i]);
            },
            None => {},
        }
    }
}

/// Once seeding a prefix has failed, seeding the whole list fails.
pub proof fn lemma_seed_dirs_none_stable(
    m: Map<i32, FdEntry>,
    cur: i32,
    dirs: Seq<(u64, String)>,
    i: int,
)
    requires
        0 <= i <= dirs.len(),
        spec_seed_dirs(m, cur, dirs.take(i)) is None,
    ensures
        spec_seed_dirs(m, cur, dirs) is None,
    decreases dirs.len() - i,
{
    if i < dirs.len() {
        lemma_seed_dirs_take_succ(m, cur, dirs, i);
        lemma_seed_dirs_none_stable(m, cur, dirs, i + 1);
    } else {
        assert(dirs.take(i) =~= dirs);
    }
}

/// Seeding a table whose live handles are exactly `0 .. c`, with the
/// cursor at `c`, hands out the consecutive handles `c`, `c + 1`, and
/// so on, and keeps every earlier entry.
pub proof fn lemma_seed_dirs_range(m: Map<i32, FdEntry>, c: i32, dirs: Seq<(u64, String)>)
    requires
        m.dom() =~= Set::new(|fd: i32| 0 <= fd < c),
        m.dom().finite(),
        m.len() == c,
        0 <= c,
        c + dirs.len() <= 0x7fff_ffff,
    ensures
        spec_seed_dirs(m, c, dirs) matches Some(mc) && ({
            &&& mc.1 == c + dirs.len()
            &&& mc.0.dom() =~= Set::new(|fd: i32| 0 <= fd < c + dirs.len())
            &&& mc.0.dom().finite()
            &&& mc.0.len() == c + dirs.len()
            &&& forall|j: int|
                0 <= j < dirs.len() ==> mc.0[(c + j) as i32] == dir_entry_of(#[trigger] dirs[j])
            &&& forall|fd: i32| 0 <= fd < c ==> mc.0[fd] == m[fd]
        }),
    decreases dirs.len(),
{
    if dirs.len() == 0 {
        assert(spec_seed_dirs(m, c, dirs) == Some((m, c)));
    } else {
        assert(!m.dom().contains(c));
        assert(spec_probe(m.dom(), c, 0x1_0000_0000) == Some(c));
        let m2 = m.insert(c, dir_entry_of(dirs.first()));
        vstd::set::axiom_set_insert_len(m.dom(), c);
        assert(m2.dom() =~= m.dom().insert(c));
        assert(m2.dom() =~= Set::new(|fd: i32| 0 <= fd < c + 1));
        assert(c < 0x7fff_ffff);
        assert(spec_next_fd(c) == c + 1);
        assert(seed_one(m, c, dirs.first()) == Some((m2, (c + 1) as i32)));
        lemma_seed_dirs_range(m2, (c + 1) as i32, dirs.drop_first());
        let rec = spec_seed_dirs(m2, (c + 1) as i32, dirs.drop_first());
        assert(spec_seed_dirs(m, c, dirs) == rec);
        let mc = rec->Some_0;
        assert(mc.1 == (c + 1) + dirs.drop_first().len());
        assert(mc.0.dom() =~= Set::new(|fd: i32| 0 <= fd < (c + 1) + dirs.drop_first().len()));
        assert(mc.0.dom() =~= Set::new(|fd: i32| 0 <= fd < c + dirs.len()));
        assert(mc.0.len() == c + dirs.len());
        assert forall|fd: i32| 0 <= fd < c implies mc.0[fd] == m[fd] by {
            assert(mc.0[fd] == m2[fd]);
            assert(m2[fd] == m[fd]);
        }
        assert forall|j: int| 0 <= j < dirs.len() implies mc.0[(c + j) as i32] == dir_entry_of(
            #[trigger] dirs[j],
        ) by {
            if j == 0 {
                assert(mc.0[c] == m2[c]);
                assert(m2[c] == dir_entry_of(dirs[0]));
            } else {
                assert(dirs.drop_first()[j - 1] == dirs[j]);
                assert(mc.0[((c + 1) + (j - 1)) as i32] == dir_entry_of(dirs.drop_first()[j - 1]));
                assert(((c + 1) + (j - 1)) as i32 == (c + j) as i32);
            }
        }
    }
}

/// Seeding a table whose live handles are exactly `0 .. c` with more
/// directories than the table can take fails.
pub proof fn lemma_seed_dirs_overflow(m: Map<i32, FdEntry>, c: i32, dirs: Seq<(u64, String)>)
    requires
        m.dom() =~= Set::new(|fd: i32| 0 <= fd < c),
        m.dom().finite(),
        m.len() == c,
        0 <= c <= 0x7fff_ffff,
        c + dirs.len() > 0x7fff_ffff,
    ensures
        spec_seed_dirs(m, c, dirs) is None,
    decreases dirs.len(),
{
    if c == 0x7fff_ffff {
        assert(seed_one(m, c, dirs.first()) is None);
    } else {
        assert(!m.dom().contains(c));
        assert(spec_probe(m.dom(), c, 0x1_0000_0000) == Some(c));
        let m2 = m.insert(c, dir_entry_of(dirs.first()));
        vstd::set::axiom_set_insert_len(m.dom(), c);
        assert(m2.dom() =~= m.dom().insert(c));
        assert(m2.dom() =~= Set::new(|fd: i32| 0 <= fd < c + 1));
        assert(spec_next_fd(c) == c + 1);
        assert(seed_one(m, c, dirs.first()) == Some((m2, (c + 1) as i32)));
        lemma_seed_dirs_overflow(m2, (c + 1) as i32, dirs.drop_first());
    }
}

/// The native handle backing a descriptor: a directory's handle, or a
/// host-backed file's handle; in-memory pipes have none.
pub open spec fn spec_native_handler(table: Map<i32, FdEntry>, fd: i32) -> Result<
    u64,
    InstanceError,
> {
    if !table.contains_key(fd) {
        Err(InstanceError::NotFoundMappedFdHandler)
    } else {
        match table[fd] {
            FdEntry::Dir(d) => Ok(d.dir),
            FdEntry::File(f) => match f.file {
                FileResource::Native(nf) => Ok(nf.handle),
                _ => Err(InstanceError::NotFoundMappedFdHandler),
            },
        }
    }
}

/// An importable WASI unit with its own environment state.
pub struct CustomWasiModule {
    /// The environment state all host functions of this unit share.
    pub environ: Environ,
    /// Whether ownership of the underlying instance has been handed to
    /// the embedding runtime's import table; if so, releasing it is
    /// the runtime's responsibility.
    pub registered: bool,
}

impl CustomWasiModule {
    /// The import namespace the guest resolves this unit under.
    pub fn name(&self) -> (r: &'static str)
        ensures
            r@ == "wasi_snapshot_preview1"@,
    {
        "wasi_snapshot_preview1"
    }

    /// Creates a WASI unit and seeds it with the given command-line
    /// arguments, environment variables and pre-opened directories
    /// (each a native handle with its guest-visible path).  Fails with
    /// the first capacity error the seeding runs into.
    pub fn create(
        args: Option<Vec<&str>>,
        envs: Option<Vec<(&str, &str)>>,
        preopened_dirs: Option<Vec<(u64, String)>>,
    ) -> (r: Result<CustomWasiModule, WasiCommonError>)
        ensures
            match r {
                Ok(m) => {
                    &&& m.environ.wf()
                    &&& !m.registered
                    &&& m.environ.exit_code == 0
                    &&& !m.environ.setup_done
                    &&& spec_push_all(Seq::empty(), arg_items(args)) == Ok::<
                        _,
                        crate::error::StringArrayError,
                    >(m.environ.args@)
                    &&& spec_push_all(Seq::empty(), env_items(envs)) == Ok::<
                        _,
                        crate::error::StringArrayError,
                    >(m.environ.envs@)
                    &&& 3 + dir_items(preopened_dirs).len() <= 0x7fff_ffff
                    &&& m.environ.fd_map@.dom() =~= Set::new(
                        |fd: i32| 0 <= fd < 3 + dir_items(preopened_dirs).len(),
                    )
                    &&& is_empty_read_stdio(m.environ.fd_map@[0])
                    &&& is_empty_write_stdio(m.environ.fd_map@[1])
                    &&& is_empty_write_stdio(m.environ.fd_map@[2])
                    &&& forall|j: int|
                        0 <= j < dir_items(preopened_dirs).len() ==> m.environ.fd_map@[(3 + j) as i32]
                            == dir_entry_of(#[trigger] dir_items(preopened_dirs)[j])
                    &&& m.environ.fd_map.cursor() == 3 + dir_items(preopened_dirs).len()
                },
                Err(e) => {
                    &&& (spec_push_all(Seq::empty(), arg_items(args)) matches Err(ea) ==> e
                        == WasiCommonError::StringArray(ea))
                    &&& (spec_push_all(Seq::empty(), arg_items(args)) is Ok && spec_push_all(
                        Seq::empty(),
                        env_items(envs),
                    ) is Err ==> e == WasiCommonError::StringArray(
                        spec_push_all(Seq::empty(), env_items(envs))->Err_0,
                    ))
                    &&& (spec_push_all(Seq::empty(), arg_items(args)) is Ok && spec_push_all(
                        Seq::empty(),
                        env_items(envs),
                    ) is Ok ==> e == WasiCommonError::FdMapFull && 3 + dir_items(
                        preopened_dirs,
                    ).len() > 0x7fff_ffff)
                },
            },
    {
        let environ = Environ::new();
        let ghost base = environ.fd_map@;
        let mut module = CustomWasiModule { environ, registered: false };
        proof {
            vstd::set::axiom_set_insert_len(Set::<i32>::empty(), 0);
            vstd::set::axiom_set_insert_len(Set::<i32>::empty().insert(0), 1);
            vstd::set::axiom_set_insert_len(Set::<i32>::empty().insert(0).insert(1), 2);
            assert(base.dom() =~= Set::<i32>::empty().insert(0).insert(1).insert(2));
            assert(base.dom() =~= Set::new(|fd: i32| 0 <= fd < 3));
            assert(base.len() == 3);
        }
        let r = module.init(args, envs, preopened_dirs);
        proof {
            if 3 + dir_items(preopened_dirs).len() <= 0x7fff_ffff {
                lemma_seed_dirs_range(base, 3, dir_items(preopened_dirs));
            } else {
                lemma_seed_dirs_overflow(base, 3, dir_items(preopened_dirs));
            }
        }
        match r {
            Ok(()) => Ok(module),
            Err(e) => Err(e),
        }
    }

    /// Seeds this unit's environment state with the given arguments,
    /// environment variables and pre-opened directories, in order, and
    /// resets the exit code.  Fails with the first capacity error and
    /// leaves the later stages untouched.
    #[verifier::loop_isolation(false)]
    pub fn init(
        &mut self,
        args: Option<Vec<&str>>,
        envs: Option<Vec<(&str, &str)>>,
        preopened_dirs: Option<Vec<(u64, String)>>,
    ) -> (r: Result<(), WasiCommonError>)
        requires
            old(self).environ.wf(),
            !old(self).environ.setup_done,
        ensures
            final(self).environ.wf(),
            !final(self).environ.setup_done,
            final(self).registered == old(self).registered,
            match spec_push_all(old(self).environ.args@, arg_items(args)) {
                Ok(a) => final(self).environ.args@ == a,
                Err(ea) => {
                    &&& r == Err::<(), WasiCommonError>(WasiCommonError::StringArray(ea))
                    &&& final(self).environ.envs == old(self).environ.envs
                    &&& final(self).environ.fd_map == old(self).environ.fd_map
                    &&& final(self).environ.exit_code == old(self).environ.exit_code
                },
            },
            spec_push_all(old(self).environ.args@, arg_items(args)) is Ok ==> match spec_push_all(
                old(self).environ.envs@,
                env_items(envs),
            ) {
                Ok(b) => final(self).environ.envs@ == b,
                Err(ee) => {
                    &&& r == Err::<(), WasiCommonError>(WasiCommonError::StringArray(ee))
                    &&& final(self).environ.fd_map == old(self).environ.fd_map
                    &&& final(self).environ.exit_code == old(self).environ.exit_code
                },
            },
            spec_push_all(old(self).environ.args@, arg_items(args)) is Ok && spec_push_all(
                old(self).environ.envs@,
                env_items(envs),
            ) is Ok ==> match spec_seed_dirs(
                old(self).environ.fd_map@,
                old(self).environ.fd_map.cursor(),
                dir_items(preopened_dirs),
            ) {
                Some(mc) => {
                    &&& r is Ok
                    &&& final(self).environ.fd_map@ == mc.0
                    &&& final(self).environ.fd_map.cursor() == mc.1
                    &&& final(self).environ.exit_code == 0
                },
                None => {
                    &&& r == Err::<(), WasiCommonError>(WasiCommonError::FdMapFull)
                    &&& final(self).environ.exit_code == old(self).environ.exit_code
                },
            },
    {
        let ghost args0 = self.environ.args@;
        let ghost envs0 = self.environ.envs@;
        let ghost a_items = arg_items(args);
        let ghost e_items = env_items(envs);
        let ghost d_items = dir_items(preopened_dirs);
        proof {
            assert(a_items.take(0) =~= Seq::<Seq<u8>>::empty());
            assert(e_items.take(0) =~= Seq::<Seq<u8>>::empty());
            assert(d_items.take(0) =~= Seq::<(u64, String)>::empty());
        }
        match args {
            Some(list) => {
                let n = list.len();
                let mut i: usize = 0;
                while i < n
                    invariant
                        self.environ.wf(),
                        !self.environ.setup_done,
                        self.environ.envs == old(self).environ.envs,
                        self.environ.fd_map == old(self).environ.fd_map,
                        self.environ.exit_code == old(self).environ.exit_code,
                        self.registered == old(self).registered,
                        args0 == old(self).environ.args@,
                        n == list@.len(),
                        a_items == list@.map_values(|s: &str| encode_utf8(s@)),
                        i <= n,
                        spec_push_all(args0, a_items.take(i as int)) == Ok::<
                            _,
                            crate::error::StringArrayError,
                        >(self.environ.args@),
                    decreases n - i,
                {
                    let s: &str = list[i];
                    let pr = self.environ.push_arg(s);
                    proof {
                        lemma_push_all_take_succ(args0, a_items, i as int);
                    }
                    match pr {
                        Ok(()) => {},
                        Err(e) => {
                            proof {
                                lemma_push_all_err_stable(args0, a_items, i as int + 1);
                            }
                            return Err(e);
                        },
                    }
                    i = i + 1;
                }
                proof {
                    assert(a_items.take(n as int) =~= a_items);
                }
            },
            None => {},
        }
        match envs {
            Some(list) => {
                let n = list.len();
                let mut i: usize = 0;
                while i < n
                    invariant
                        self.environ.wf(),
                        !self.environ.setup_done,
                        self.environ.args@ == match spec_push_all(args0, a_items) {
                            Ok(a) => a,
                            Err(_) => Seq::<Seq<u8>>::empty(),
                        },
                        spec_push_all(args0, a_items) is Ok,
                        self.environ.fd_map == old(self).environ.fd_map,
                        self.environ.exit_code == old(self).environ.exit_code,
                        self.registered == old(self).registered,
                        envs0 == old(self).environ.envs@,
                        n == list@.len(),
                        e_items == list@.map_values(|p: (&str, &str)| env_entry_bytes(p.0@, p.1@)),
                        i <= n,
                        spec_push_all(envs0, e_items.take(i as int)) == Ok::<
                            _,
                            crate::error::StringArrayError,
                        >(self.environ.envs@),
                    decreases n - i,
                {
                    let pair: (&str, &str) = list[i];
                    let pr = self.environ.push_env(pair.0, pair.1);
                    proof {
                        lemma_push_all_take_succ(envs0, e_items, i as int);
                    }
                    match pr {
                        Ok(()) => {},
                        Err(e) => {
                            proof {
                                lemma_push_all_err_stable(envs0, e_items, i as int + 1);
                            }
                            return Err(e);
                        },
                    }
                    i = i + 1;
                }
                proof {
                    assert(e_items.take(n as int) =~= e_items);
                }
            },
            None => {},
        }
        let ghost fd0 = self.environ.fd_map@;
        let ghost cur0 = self.environ.fd_map.cursor();
        match preopened_dirs {
            Some(list) => {
                let n = list.len();
                let mut i: usize = 0;
                while i < n
                    invariant
                        self.environ.wf(),
                        !self.environ.setup_done,
                        self.environ.args@ == match spec_push_all(args0, a_items) {
                            Ok(a) => a,
                            Err(_) => Seq::<Seq<u8>>::empty(),
                        },
                        spec_push_all(args0, a_items) is Ok,
                        self.environ.envs@ == match spec_push_all(envs0, e_items) {
                            Ok(b) => b,
                            Err(_) => Seq::<Seq<u8>>::empty(),
                        },
                        spec_push_all(envs0, e_items) is Ok,
                        self.environ.exit_code == old(self).environ.exit_code,
                        self.registered == old(self).registered,
                        fd0 == old(self).environ.fd_map@,
                        cur0 == old(self).environ.fd_map.cursor(),
                        n == list@.len(),
                        d_items == list@,
                        i <= n,
                        spec_seed_dirs(fd0, cur0, d_items.take(i as int)) == Some(
                            (self.environ.fd_map@, self.environ.fd_map.cursor()),
                        ),
                    decreases n - i,
                {
                    let handle: u64 = list[i].0;
                    let path: String = list[i].1.clone();
                    let pr = self.environ.push_dir(handle, DirCaps::all(), FileCaps::all(), path);
                    proof {
                        lemma_seed_dirs_take_succ(fd0, cur0, d_items, i as int);
                    }
                    match pr {
                        Ok(_fd) => {},
                        Err(e) => {
                            proof {
                                lemma_seed_dirs_none_stable(fd0, cur0, d_items, i as int + 1);
                            }
                            return Err(e);
                        },
                    }
                    i = i + 1;
                }
                proof {
                    assert(d_items.take(n as int) =~= d_items);
                }
            },
            None => {},
        }
        self.environ.exit_code = 0;
        Ok(())
    }

    /// The last exit code the guest recorded through `proc_exit`, or
    /// zero if it never called.
    pub fn exit_code(&self) -> (r: i32)
        ensures
            r == self.environ.exit_code,
    {
        self.environ.exit_code
    }

    /// The host-native handle backing the given descriptor, if it has
    /// one; in-memory pipes have none.
    pub fn get_native_handler(&self, fd: i32) -> (r: Result<u64, InstanceError>)
        ensures
            r == spec_native_handler(self.environ.fd_map@, fd),
    {
        match self.environ.fd_map.get(fd) {
            None => Err(InstanceError::NotFoundMappedFdHandler),
            Some(entry) => match entry {
                FdEntry::Dir(d) => Ok(d.dir),
                FdEntry::File(f) => match &f.file {
                    FileResource::Native(nf) => Ok(nf.handle),
                    _ => Err(InstanceError::NotFoundMappedFdHandler),
                },
            },
        }
    }
}

} // verus!
