use wasi_shim::ctx::WasiCtx;
use wasi_shim::dir::DirCaps;
use wasi_shim::environ::Environ;
use wasi_shim::error::InstanceError;
use wasi_shim::fd_map::FdEntry;
use wasi_shim::fd_map::FdMap;
use wasi_shim::file::FileCaps;
use wasi_shim::file::FileEntry;
use wasi_shim::file::FileResource;
use wasi_shim::file::NativeFile;
use wasi_shim::file::FILE_CAPS_ALL;
use wasi_shim::file::FILE_CAP_SEEK;
use wasi_shim::file::FILE_CAP_TELL;
use wasi_shim::file::FILE_CAP_WRITE;
use wasi_shim::memory::GuestMemory;
use wasi_shim::module::CustomWasiModule;
use wasi_shim::pipe::ReadPipe;
use wasi_shim::pipe::WritePipe;
use wasi_shim::string_array::StringArray;

fn sink_entry() -> FdEntry {
    FdEntry::File(FileEntry::new(
        FileCaps::all(),
        FileResource::WritePipe(WritePipe::new()),
    ))
}

#[test]
fn test_push_skips_live_handles() {
    let mut map = FdMap::new();
    map.insert_at(3, sink_entry());
    map.insert_at(4, sink_entry());
    // the cursor starts at 3; both live handles are skipped
    let fd = map.push(sink_entry()).unwrap();
    assert_eq!(fd, 5);
    let fd = map.push(sink_entry()).unwrap();
    assert_eq!(fd, 6);
    // the handles placed explicitly are still there
    assert!(map.get(3).is_some());
    assert!(map.get(4).is_some());
    assert!(map.get(7).is_none());
    assert_eq!(map.len(), 4);
}

#[test]
fn test_take_frees_a_handle() {
    let mut map = FdMap::new();
    let fd = map.push(sink_entry()).unwrap();
    assert_eq!(fd, 3);
    assert!(map.take(fd).is_some());
    assert!(map.get(fd).is_none());
    assert!(map.take(fd).is_none());
}

#[test]
fn test_string_array_sizes_count_the_terminators() {
    let mut arr = StringArray::new();
    assert_eq!(arr.sizes(), (0, 0));
    arr.push(String::from("a")).unwrap();
    arr.push(String::from("bc")).unwrap();
    // one NUL terminator is counted per entry
    assert_eq!(arr.sizes(), (2, 5));
    assert_eq!(arr.entries().len(), 2);
    assert_eq!(arr.entries()[0], b"a".to_vec());
    assert_eq!(arr.entries()[1], b"bc".to_vec());
}

#[test]
fn test_stdio_caps_withholds_seek_and_tell_from_ttys() {
    let tty = FileResource::Native(NativeFile { handle: 7, tty: true });
    let caps = Environ::stdio_caps(&tty);
    assert_eq!(caps.bits, FILE_CAPS_ALL & !(FILE_CAP_TELL | FILE_CAP_SEEK));
    assert!(!caps.contains(FILE_CAP_TELL));
    assert!(!caps.contains(FILE_CAP_SEEK));
    assert!(caps.contains(FILE_CAP_WRITE));
    let pipe = FileResource::WritePipe(WritePipe::new());
    assert_eq!(Environ::stdio_caps(&pipe).bits, FILE_CAPS_ALL);
    assert_eq!(WasiCtx::stdio_caps(&pipe).bits, FILE_CAPS_ALL);
}

#[test]
fn test_environ_sizes_queries() {
    let mut env = Environ::new();
    env.push_arg("arg1").unwrap();
    env.push_arg("arg2").unwrap();
    env.push_env("ENV1", "VAL1").unwrap();
    assert_eq!(env.args_sizes_get(), (2, 10));
    assert_eq!(env.environ_sizes_get(), (1, 10));
}

#[test]
fn test_capability_set_builders() {
    assert_eq!(FileCaps::empty().bits, 0);
    assert!(!FileCaps::empty().contains(FILE_CAP_WRITE));
    assert!(FileCaps::from_bits(FILE_CAP_WRITE).contains(FILE_CAP_WRITE));
    assert_eq!(DirCaps::empty().bits, 0);
    let dc = DirCaps::from_bits(0x11);
    assert!(dc.contains(0x10));
    assert!(!dc.contains(0x2));
    assert!(DirCaps::all().contains(0x8000));
}

#[test]
fn test_environ_new_populates_standard_streams() {
    let env = Environ::new();
    for fd in [0, 1, 2] {
        assert!(env.fd_map.get(fd).is_some());
    }
    assert!(env.fd_map.get(3).is_none());
    assert_eq!(env.exit_code, 0);
}

#[test]
fn test_wasi_ctx_seeding() {
    let mut ctx = WasiCtx::new();
    ctx.push_arg("one").unwrap();
    ctx.push_env("KEY", "VALUE").unwrap();
    assert_eq!(ctx.args.sizes(), (1, 4));
    // "KEY=VALUE" is nine bytes, plus its terminator
    assert_eq!(ctx.envs.sizes(), (1, 10));
    assert_eq!(ctx.envs.entries()[0], b"KEY=VALUE".to_vec());
    ctx.set_stdin(FileResource::ReadPipe(ReadPipe::new(Vec::new())));
    ctx.set_stdout(FileResource::WritePipe(WritePipe::new()));
    ctx.set_stderr(FileResource::WritePipe(WritePipe::new()));
    let fd = ctx
        .push_file(FileResource::WritePipe(WritePipe::new()), FileCaps::all())
        .unwrap();
    assert_eq!(fd, 3);
    let fd = ctx
        .push_dir(11, DirCaps::all(), FileCaps::all(), String::from("/data"))
        .unwrap();
    assert_eq!(fd, 4);
}

#[test]
fn test_get_native_handler() {
    let mut module =
        CustomWasiModule::create(None, None, Some(vec![(42, String::from("/pre")) ])).unwrap();
    // the pre-opened directory got descriptor 3 and keeps its handle
    assert_eq!(module.get_native_handler(3), Ok(42));
    // standard output is an in-memory pipe: no native handle
    assert_eq!(
        module.get_native_handler(1),
        Err(InstanceError::NotFoundMappedFdHandler)
    );
    assert_eq!(
        module.get_native_handler(9),
        Err(InstanceError::NotFoundMappedFdHandler)
    );
    let fd = module
        .environ
        .push_file(
            FileResource::Native(NativeFile { handle: 7, tty: false }),
            FileCaps::all(),
        )
        .unwrap();
    assert_eq!(module.get_native_handler(fd), Ok(7));
    assert_eq!(module.name(), "wasi_snapshot_preview1");
}

#[test]
fn test_memory_rejects_out_of_bounds_requests() {
    let mut mem = GuestMemory::new(8);
    assert_eq!(mem.size(), 8);
    assert!(!mem.write_bytes(5, b"abcd"));
    assert!(mem.read_bytes(5, 4).is_none());
    assert!(mem.read_u32_le(5).is_none());
    assert!(mem.write_u32_le(4, 0x01020304));
    assert_eq!(mem.read_u32_le(4).unwrap(), 0x01020304);
    assert_eq!(mem.byte_at(4), 4);
    assert_eq!(mem.byte_at(7), 1);
    // the failed write left the region untouched
    assert_eq!(mem.read_bytes(0, 4).unwrap(), vec![0, 0, 0, 0]);
}

#[test]
fn test_write_pipe_records_in_order() {
    let mut pipe = WritePipe::new();
    pipe.write_all(b"ab");
    pipe.write_all(b"cd");
    assert_eq!(pipe.contents(), &b"abcd".to_vec());
    let source = ReadPipe::new(b"xyz".to_vec());
    assert_eq!(source.contents(), &b"xyz".to_vec());
}
