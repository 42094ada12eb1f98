use wasi_shim::environ::Environ;
use wasi_shim::error::WasiCommonError;
use wasi_shim::file::FileCaps;
use wasi_shim::file::FileResource;
use wasi_shim::file::FILE_CAPS_ALL;
use wasi_shim::file::FILE_CAP_WRITE;
use wasi_shim::memory::GuestMemory;
use wasi_shim::module::CustomWasiModule;
use wasi_shim::pipe::WritePipe;
use wasi_shim::wasi::wasi_args_get;
use wasi_shim::wasi::wasi_args_sizes_get;
use wasi_shim::wasi::wasi_environ_get;
use wasi_shim::wasi::wasi_environ_sizes_get;
use wasi_shim::wasi::wasi_fd_write;
use wasi_shim::wasi::wasi_proc_exit;
use wasi_shim::wasi::ERRNO_BADF;
use wasi_shim::wasi::ERRNO_FAULT;
use wasi_shim::wasi::ERRNO_NOTCAPABLE;
use wasi_shim::wasi::ERRNO_SUCCESS;
use wasi_shim::fd_map::FdEntry;

fn demo_module() -> CustomWasiModule {
    let args = vec!["arg1", "arg2"];
    let envs = vec![("ENV1", "VAL1"), ("ENV2", "VAL2"), ("ENV3", "VAL3")];
    CustomWasiModule::create(Some(args), Some(envs), None).unwrap()
}

fn stdout_contents(module: &CustomWasiModule) -> Vec<u8> {
    match module.environ.fd_map.get(1) {
        Some(FdEntry::File(f)) => match &f.file {
            FileResource::WritePipe(p) => p.contents().clone(),
            _ => panic!("stdout is not a sink"),
        },
        _ => panic!("stdout missing"),
    }
}

#[test]
fn test_import_custom_wasi() {
    let mut module = demo_module();
    module.environ.insert_file(4, FileResource::WritePipe(WritePipe::new()), FileCaps::all());
    let mut mem = GuestMemory::new(65536);

    // args_sizes_get
    let errno = wasi_args_sizes_get(&mut module.environ, &mut mem, 0, 4);
    assert_eq!(errno, ERRNO_SUCCESS);
    assert_eq!(
        (mem.read_u32_le(0).unwrap(), mem.read_u32_le(4).unwrap()),
        (2, 10)
    );

    // args_get
    let errno = wasi_args_get(&mut module.environ, &mut mem, 0, 8);
    assert_eq!(errno, ERRNO_SUCCESS);
    let p1 = mem.read_u32_le(0).unwrap();
    let p2 = mem.read_u32_le(4).unwrap();
    let mut args_get = vec![];
    for p in [p1, p2] {
        let mut bytes = vec![];
        let mut off = p;
        while mem.byte_at(off) != 0 {
            bytes.push(mem.byte_at(off));
            off += 1;
        }
        args_get.push(String::from_utf8(bytes).unwrap());
    }
    assert_eq!(args_get, ["arg1", "arg2"]);

    // environ_sizes_get
    let errno = wasi_environ_sizes_get(&mut module.environ, &mut mem, 0, 4);
    assert_eq!(errno, ERRNO_SUCCESS);
    assert_eq!(
        (mem.read_u32_le(0).unwrap(), mem.read_u32_le(4).unwrap()),
        (3, 30)
    );

    // environ_get
    let errno = wasi_environ_get(&mut module.environ, &mut mem, 0, 12);
    assert_eq!(errno, ERRNO_SUCCESS);
    let mut envs_get = vec![];
    for i in 0..3u32 {
        let p = mem.read_u32_le(4 * i).unwrap();
        let mut bytes = vec![];
        let mut off = p;
        while mem.byte_at(off) != 0 {
            bytes.push(mem.byte_at(off));
            off += 1;
        }
        envs_get.push(String::from_utf8(bytes).unwrap());
    }
    assert_eq!(envs_get, ["ENV1=VAL1", "ENV2=VAL2", "ENV3=VAL3"]);

    // fd_write on descriptor 4
    let s = "Hello, world!";
    assert!(mem.write_bytes(100, s.as_bytes()));
    assert!(mem.write_u32_le(120, 100));
    assert!(mem.write_u32_le(124, s.len() as u32));
    let errno = wasi_fd_write(&mut module.environ, &mut mem, 4, 120, 1, 130);
    assert_eq!(errno, ERRNO_SUCCESS);
    assert_eq!(mem.read_u32_le(130).unwrap(), 13);

    // proc_exit
    wasi_proc_exit(&mut module.environ, 1);
    assert_eq!(module.exit_code(), 1);
}

#[test]
fn test_wasi_args_sizes_get() {
    let mut module = demo_module();
    let mut mem = GuestMemory::new(65536);
    let errno = wasi_args_sizes_get(&mut module.environ, &mut mem, 0, 4);
    assert_eq!(errno, 0);
    let args_size = mem.read_u32_le(0).unwrap();
    assert_eq!(args_size, 2);
    let args_buf_size = mem.read_u32_le(4).unwrap();
    assert_eq!(args_buf_size, 10);
}

#[test]
fn test_wasi_environ_sizes_get() {
    let mut module = demo_module();
    let mut mem = GuestMemory::new(65536);
    let errno = wasi_environ_sizes_get(&mut module.environ, &mut mem, 0, 4);
    assert_eq!(errno, 0);
    let environ_size = mem.read_u32_le(0).unwrap();
    assert_eq!(environ_size, 3);
    let environ_buf_size = mem.read_u32_le(4).unwrap();
    assert_eq!(environ_buf_size, 30);
}

#[test]
fn test_wasi_args_get() {
    let mut module = demo_module();
    let mut mem = GuestMemory::new(65536);
    let errno = wasi_args_get(&mut module.environ, &mut mem, 0, 8);
    assert_eq!(errno, 0);
    // the pointer array holds the offset of each argument's copy
    let arg1_ptr = mem.read_u32_le(0).unwrap();
    let arg2_ptr = mem.read_u32_le(4).unwrap();
    assert_eq!(arg1_ptr, 8);
    assert_eq!(arg2_ptr, 13);
    let data = mem.read_bytes(arg1_ptr, 4).unwrap();
    assert_eq!(std::str::from_utf8(&data).unwrap(), "arg1");
    assert_eq!(mem.byte_at(arg1_ptr + 4), 0);
    let data = mem.read_bytes(arg2_ptr, 4).unwrap();
    assert_eq!(std::str::from_utf8(&data).unwrap(), "arg2");
    assert_eq!(mem.byte_at(arg2_ptr + 4), 0);
}

#[test]
fn test_wasi_environ_get() {
    let mut module = demo_module();
    let mut mem = GuestMemory::new(65536);
    let data_offset = 3 * 4;
    let errno = wasi_environ_get(&mut module.environ, &mut mem, 0, data_offset);
    assert_eq!(errno, 0);
    let env1_ptr = mem.read_u32_le(0).unwrap();
    let env2_ptr = mem.read_u32_le(4).unwrap();
    let env3_ptr = mem.read_u32_le(8).unwrap();
    assert_eq!((env1_ptr, env2_ptr, env3_ptr), (12, 22, 32));
    let data = mem.read_bytes(env1_ptr, 9).unwrap();
    assert_eq!(std::str::from_utf8(&data).unwrap(), "ENV1=VAL1");
    assert_eq!(mem.byte_at(env1_ptr + 9), 0);
    let data = mem.read_bytes(env2_ptr, 9).unwrap();
    assert_eq!(std::str::from_utf8(&data).unwrap(), "ENV2=VAL2");
    assert_eq!(mem.byte_at(env2_ptr + 9), 0);
    let data = mem.read_bytes(env3_ptr, 9).unwrap();
    assert_eq!(std::str::from_utf8(&data).unwrap(), "ENV3=VAL3");
    assert_eq!(mem.byte_at(env3_ptr + 9), 0);
}

#[test]
fn test_wasi_fd_write() {
    let mut module = demo_module();
    let mut mem = GuestMemory::new(65536);
    // write the two strings into guest memory
    let s1 = "Hello, world!".as_bytes();
    assert!(mem.write_bytes(0, s1));
    let s2 = "This is a test.".as_bytes();
    assert!(mem.write_bytes(s1.len() as u32, s2));
    // the iovec array: (offset, length) of each buffer
    let iovs_offset = (s1.len() + s2.len()) as u32;
    assert!(mem.write_u32_le(iovs_offset, 0));
    assert!(mem.write_u32_le(iovs_offset + 4, s1.len() as u32));
    assert!(mem.write_u32_le(iovs_offset + 8, s1.len() as u32));
    assert!(mem.write_u32_le(iovs_offset + 12, s2.len() as u32));
    let nwritten_offset = iovs_offset + 16;
    // descriptor 1 is the standard-output sink
    let errno = wasi_fd_write(&mut module.environ, &mut mem, 1, iovs_offset, 2, nwritten_offset);
    assert_eq!(errno, ERRNO_SUCCESS);
    let n_written_bytes = mem.read_u32_le(nwritten_offset).unwrap();
    assert_eq!(n_written_bytes, 28);
    // the sink observed exactly the 28 bytes, concatenated in order
    let observed = stdout_contents(&module);
    assert_eq!(observed.len(), 28);
    assert_eq!(&observed[..13], s1);
    assert_eq!(&observed[13..], s2);
}

#[test]
fn test_fd_write_without_write_capability() {
    let mut env = Environ::new();
    env.insert_file(
        4,
        FileResource::WritePipe(WritePipe::new()),
        FileCaps::from_bits(FILE_CAPS_ALL & !FILE_CAP_WRITE),
    );
    let mut mem = GuestMemory::new(256);
    assert!(mem.write_bytes(0, b"abc"));
    assert!(mem.write_u32_le(16, 0));
    assert!(mem.write_u32_le(20, 3));
    let before = mem.read_bytes(0, 256).unwrap();
    let errno = wasi_fd_write(&mut env, &mut mem, 4, 16, 1, 24);
    assert_eq!(errno, ERRNO_NOTCAPABLE);
    // neither the memory nor the sink was touched
    assert_eq!(mem.read_bytes(0, 256).unwrap(), before);
    match env.fd_map.get(4) {
        Some(FdEntry::File(f)) => match &f.file {
            FileResource::WritePipe(p) => assert_eq!(p.contents().len(), 0),
            _ => panic!("sink replaced"),
        },
        _ => panic!("descriptor 4 missing"),
    }
}

#[test]
fn test_fd_write_bad_descriptor() {
    let mut env = Environ::new();
    let mut mem = GuestMemory::new(256);
    let errno = wasi_fd_write(&mut env, &mut mem, 9, 0, 0, 16);
    assert_eq!(errno, ERRNO_BADF);
    // descriptor 0 is a read-only source: not writable by this shim
    let errno = wasi_fd_write(&mut env, &mut mem, 0, 0, 0, 16);
    assert_eq!(errno, ERRNO_BADF);
}

#[test]
fn test_fd_write_out_of_bounds() {
    let mut env = Environ::new();
    let mut mem = GuestMemory::new(64);
    // iovec array itself out of range
    let errno = wasi_fd_write(&mut env, &mut mem, 1, 60, 2, 0);
    assert_eq!(errno, ERRNO_FAULT);
    // iovec data out of range
    assert!(mem.write_u32_le(0, 60));
    assert!(mem.write_u32_le(4, 10));
    let before = mem.read_bytes(0, 64).unwrap();
    let errno = wasi_fd_write(&mut env, &mut mem, 1, 0, 1, 16);
    assert_eq!(errno, ERRNO_FAULT);
    assert_eq!(mem.read_bytes(0, 64).unwrap(), before);
}

#[test]
fn test_proc_exit_records_code() {
    let mut module = demo_module();
    for code in [i32::MIN, -7, 0, 1, i32::MAX] {
        wasi_proc_exit(&mut module.environ, code);
        // repeated reads keep returning the recorded code
        assert_eq!(module.exit_code(), code);
        assert_eq!(module.exit_code(), code);
    }
}

#[test]
fn test_pushes_rejected_after_host_call() {
    let mut module = demo_module();
    let mut mem = GuestMemory::new(64);
    let errno = wasi_args_sizes_get(&mut module.environ, &mut mem, 0, 4);
    assert_eq!(errno, ERRNO_SUCCESS);
    assert_eq!(module.environ.push_arg("late"), Err(WasiCommonError::Sealed));
    assert_eq!(
        module.environ.push_env("LATE", "1"),
        Err(WasiCommonError::Sealed)
    );
}

#[test]
fn test_args_get_region_too_small() {
    let mut module = demo_module();
    let mut mem = GuestMemory::new(12);
    // the string buffer region cannot hold the 10 reported bytes
    let before = mem.read_bytes(0, 12).unwrap();
    let errno = wasi_args_get(&mut module.environ, &mut mem, 0, 8);
    assert_eq!(errno, ERRNO_FAULT);
    assert_eq!(mem.read_bytes(0, 12).unwrap(), before);
}
