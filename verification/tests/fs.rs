use steed::cstring::{cstr, CString};
use steed::attr::{FilePermissions, Stat64};
use steed::error::{Error, ErrorKind};
use steed::fs::{
    attr_result, link, lstat, readdir, rename, rmdir, set_perm, stat, symlink, unlink, DirBuilder,
};
use steed::syscall::Syscall;

fn c(name: &[u8]) -> CString {
    cstr(name).unwrap()
}

fn nul() -> Error {
    Error::Custom { kind: ErrorKind::InvalidInput, message: "data provided contains a nul byte" }
}

fn some_stat() -> Stat64 {
    Stat64 {
        st_dev: 0,
        st_ino: 77,
        st_mode: 0o100600,
        st_nlink: 1,
        st_uid: 0,
        st_gid: 0,
        st_rdev: 0,
        st_size: 5,
        st_blksize: 512,
        st_blocks: 1,
        st_atime: 1,
        st_atime_nsec: 2,
        st_mtime: 3,
        st_mtime_nsec: 4,
        st_ctime: 5,
        st_ctime_nsec: 6,
    }
}

#[test]
fn requests_by_one_name() {
    assert_eq!(unlink(b"a/b"), Ok(Syscall::Unlink { path: c(b"a/b") }));
    assert_eq!(rmdir(b"a/b"), Ok(Syscall::Rmdir { path: c(b"a/b") }));
    assert_eq!(stat(b"a/b"), Ok(Syscall::Stat64 { path: c(b"a/b") }));
    assert_eq!(lstat(b"a/b"), Ok(Syscall::Lstat64 { path: c(b"a/b") }));
    assert_eq!(unlink(b""), Ok(Syscall::Unlink { path: c(b"") }));
}

#[test]
fn requests_by_one_name_refuse_a_nul() {
    assert_eq!(unlink(b"a\0b"), Err(nul()));
    assert_eq!(rmdir(b"a\0b"), Err(nul()));
    assert_eq!(stat(b"a\0b"), Err(nul()));
    assert_eq!(lstat(b"a\0b"), Err(nul()));
    assert_eq!(set_perm(b"\0", FilePermissions::from_mode(0o600)), Err(nul()));
    assert_eq!(DirBuilder::new().mkdir(b"x\0"), Err(nul()));
}

#[test]
fn requests_by_two_names_keep_their_order() {
    assert_eq!(
        rename(b"old", b"new"),
        Ok(Syscall::Rename { from: c(b"old"), to: c(b"new") })
    );
    assert_eq!(
        symlink(b"target", b"the-link"),
        Ok(Syscall::Symlink { target: c(b"target"), linkpath: c(b"the-link") })
    );
    assert_eq!(
        link(b"file", b"other-name"),
        Ok(Syscall::Link { target: c(b"file"), linkpath: c(b"other-name") })
    );
}

#[test]
fn requests_by_two_names_refuse_a_nul_in_either() {
    assert_eq!(rename(b"o\0", b"n"), Err(nul()));
    assert_eq!(rename(b"o", b"\0n"), Err(nul()));
    assert_eq!(rename(b"\0", b"\0"), Err(nul()));
    assert_eq!(symlink(b"o\0", b"n"), Err(nul()));
    assert_eq!(symlink(b"o", b"n\0"), Err(nul()));
    assert_eq!(link(b"o\0", b"n"), Err(nul()));
    assert_eq!(link(b"o", b"n\0"), Err(nul()));
}

#[test]
fn set_perm_hands_the_bits_to_chmod() {
    assert_eq!(
        set_perm(b"f", FilePermissions::from_mode(0o640)),
        Ok(Syscall::Chmod { path: c(b"f"), mode: 0o640 })
    );
    let mut p = FilePermissions::from_mode(0o640);
    p.set_readonly(true);
    assert_eq!(set_perm(b"f", p), Ok(Syscall::Chmod { path: c(b"f"), mode: 0o440 }));
    // Chmod is one of the calls that are made again when interrupted.
    assert!(set_perm(b"f", p).unwrap().restarts());
}

#[test]
fn dir_builder_makes_directories_with_its_mode() {
    let mut b = DirBuilder::new();
    assert_eq!(b.mkdir(b"d"), Ok(Syscall::Mkdir { path: c(b"d"), mode: 0o777 }));
    b.set_mode(0o750);
    assert_eq!(b.mkdir(b"d"), Ok(Syscall::Mkdir { path: c(b"d"), mode: 0o750 }));
    b.set_mode(0o1755);
    assert_eq!(b.mkdir(b"e"), Ok(Syscall::Mkdir { path: c(b"e"), mode: 0o1755 }));
}

#[test]
fn readdir_opens_the_directory_for_reading() {
    let op = readdir(b"/var/log").unwrap();
    // close-on-exec, directory, large file, read-only
    assert_eq!(
        op.request(),
        Syscall::Open { path: c(b"/var/log"), flags: 0o2300000, mode: 0o666 }
    );
    assert_eq!(readdir(b"/var\0/log").err(), Some(nul()));
}

#[test]
fn metadata_comes_with_a_successful_return() {
    let attr = attr_result(0, some_stat()).unwrap();
    assert_eq!(*attr.as_inner(), some_stat());
    assert_eq!(attr.size(), 5);
    assert_eq!(attr.perm().mode(), 0o600);
    assert!(attr.file_type().is_file());
}

#[test]
fn metadata_fails_with_the_kernel() {
    assert_eq!(attr_result(-2, some_stat()).err(), Some(Error::Os { code: 2 }));
    assert_eq!(attr_result(-2, some_stat()).unwrap_err().kind(), ErrorKind::NotFound);
    assert_eq!(attr_result(-20, some_stat()).err(), Some(Error::Os { code: 20 }));
}
