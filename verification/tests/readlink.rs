use occlum_exec::symlink::{do_readlink, OpenFile, ProcessContext, ReadlinkError, EBADF, EINVAL};

fn process() -> ProcessContext {
    let mut process = ProcessContext::new(String::from("/bin/busybox"));
    process.open(0, OpenFile::Special);
    process.open(3, OpenFile::Inode { abs_path: String::from("/host/data.txt") });
    process.open(12, OpenFile::Inode { abs_path: String::from("/tmp/é") });
    process.open(u32::MAX, OpenFile::Inode { abs_path: String::from("/last") });
    process
}

fn read(path: &str, size: usize) -> (Result<usize, ReadlinkError>, Vec<u8>) {
    let mut buf = vec![0xaau8; size];
    let result = do_readlink(&process(), path, &mut buf);
    (result, buf)
}

fn read_ok(path: &str) -> Vec<u8> {
    let (result, mut buf) = read(path, 64);
    let len = result.unwrap();
    assert!(buf[len..].iter().all(|b| *b == 0xaa));
    buf.truncate(len);
    buf
}

fn read_err(path: &str) -> ReadlinkError {
    let (result, buf) = read(path, 64);
    assert!(buf.iter().all(|b| *b == 0xaa));
    result.unwrap_err()
}

#[test]
fn readlink_of_the_executable() {
    assert_eq!(read_ok("/proc/self/exe"), b"/bin/busybox".to_vec());
}

#[test]
fn readlink_of_an_open_file() {
    assert_eq!(read_ok("/proc/self/fd/3"), b"/host/data.txt".to_vec());
    assert_eq!(read_ok("/proc/self/fd/12"), "/tmp/é".as_bytes().to_vec());
    assert_eq!(read_ok("/proc/self/fd/4294967295"), b"/last".to_vec());
}

#[test]
fn readlink_truncates_to_the_buffer() {
    let (result, buf) = read("/proc/self/exe", 4);
    assert_eq!(result, Ok(4));
    assert_eq!(buf, b"/bin".to_vec());

    let (result, buf) = read("/proc/self/fd/3", 0);
    assert_eq!(result, Ok(0));
    assert!(buf.is_empty());

    let (result, buf) = read("/proc/self/exe", 12);
    assert_eq!(result, Ok(12));
    assert_eq!(buf, b"/bin/busybox".to_vec());

    let (result, buf) = read("/proc/self/exe", 13);
    assert_eq!(result, Ok(12));
    assert_eq!(buf, b"/bin/busybox\xaa".to_vec());
}

#[test]
fn readlink_accepts_a_sign_and_leading_zeros() {
    assert_eq!(read_ok("/proc/self/fd/+3"), b"/host/data.txt".to_vec());
    assert_eq!(read_ok("/proc/self/fd/003"), b"/host/data.txt".to_vec());
    assert_eq!(read_ok("/proc/self/fd/+0012"), "/tmp/é".as_bytes().to_vec());
    assert_eq!(read_ok("/proc/self/fd/00000000004294967295"), b"/last".to_vec());
}

#[test]
fn readlink_takes_the_prefix_off_as_often_as_it_stands() {
    assert_eq!(read_ok("/proc/self/fd//proc/self/fd/3"), b"/host/data.txt".to_vec());
    assert_eq!(
        read_ok("/proc/self/fd//proc/self/fd//proc/self/fd/12"),
        "/tmp/é".as_bytes().to_vec()
    );
}

#[test]
fn readlink_of_a_descriptor_that_is_not_open() {
    assert_eq!(read_err("/proc/self/fd/4"), ReadlinkError::InvalidDescriptor);
    assert_eq!(read_err("/proc/self/fd/4294967294"), ReadlinkError::InvalidDescriptor);
}

#[test]
fn readlink_of_what_is_no_descriptor() {
    for path in [
        "/proc/self/fd",
        "/proc/self/fd/",
        "/proc/self/fd3",
        "/proc/self/fdx",
        "/proc/self/fd/+",
        "/proc/self/fd/-3",
        "/proc/self/fd/++3",
        "/proc/self/fd/3 ",
        "/proc/self/fd/ 3",
        "/proc/self/fd/3/",
        "/proc/self/fd/3a",
        "/proc/self/fd/0x3",
        "/proc/self/fd/1_2",
        "/proc/self/fd/٣",
        "/proc/self/fd/4294967296",
        "/proc/self/fd/99999999999999999999999999",
        "/proc/self/fd/3/proc/self/fd/",
    ] {
        assert_eq!(read_err(path), ReadlinkError::InvalidDescriptor, "{}", path);
    }
}

#[test]
fn readlink_of_a_special_file() {
    assert_eq!(read_err("/proc/self/fd/0"), ReadlinkError::NotNormalFile);
}

#[test]
fn readlink_of_another_path() {
    for path in ["", "/", "/proc/self/ex", "/proc/self/exe/", "/proc/self/exe2", "/proc/self/f",
        "/proc/1/fd/3", "proc/self/fd/3", "/host/data.txt"] {
        assert_eq!(read_err(path), ReadlinkError::NotSymlink, "{}", path);
    }
}

#[test]
fn readlink_after_close_and_reopen() {
    let mut process = process();
    process.close(3);
    let mut buf = [0u8; 32];
    assert_eq!(do_readlink(&process, "/proc/self/fd/3", &mut buf), Err(ReadlinkError::InvalidDescriptor));
    process.open(3, OpenFile::Inode { abs_path: String::from("/new") });
    assert_eq!(do_readlink(&process, "/proc/self/fd/3", &mut buf), Ok(4));
    assert_eq!(&buf[..4], b"/new");
    process.open(3, OpenFile::Special);
    assert_eq!(do_readlink(&process, "/proc/self/fd/3", &mut buf), Err(ReadlinkError::NotNormalFile));
}

#[test]
fn readlink_error_numbers() {
    assert_eq!((EBADF, EINVAL), (9, 22));
    assert_eq!(ReadlinkError::InvalidDescriptor.errno(), 9);
    assert_eq!(ReadlinkError::NotNormalFile.errno(), 22);
    assert_eq!(ReadlinkError::NotSymlink.errno(), 22);
}
