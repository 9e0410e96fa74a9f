use steed::errno::{EACCES, EEXIST, EINTR, EINVAL, ENOENT, EPERM};
use steed::error::{decode_error_kind, Error, ErrorKind};
use steed::cstring::cstr;
use steed::syscall::{cvt, cvt_r, Request, Syscall};

#[test]
fn cvt_passes_non_negative_values_through() {
    assert_eq!(cvt(0), Ok(0));
    assert_eq!(cvt(1), Ok(1));
    assert_eq!(cvt(4096), Ok(4096));
    assert_eq!(cvt(isize::MAX), Ok(isize::MAX as usize));
}

#[test]
fn cvt_reads_the_reserved_range_as_error_numbers() {
    assert_eq!(cvt(-1), Err(Error::Os { code: 1 }));
    assert_eq!(cvt(-2), Err(Error::Os { code: ENOENT }));
    assert_eq!(cvt(-22), Err(Error::Os { code: EINVAL }));
    assert_eq!(cvt(-4095), Err(Error::Os { code: 4095 }));
}

#[test]
fn cvt_reads_values_below_the_reserved_range_as_unsigned_words() {
    assert_eq!(cvt(-4096), Ok((-4096isize) as usize));
    assert_eq!(cvt(isize::MIN), Ok(isize::MIN as usize));
}

#[test]
fn cvt_r_asks_for_a_repeat_only_when_interrupted() {
    assert_eq!(cvt_r(-(EINTR as isize)), None);
    assert_eq!(cvt_r(-4), None);
    assert_eq!(cvt_r(-5), Some(Err(Error::Os { code: 5 })));
    assert_eq!(cvt_r(-3), Some(Err(Error::Os { code: 3 })));
    assert_eq!(cvt_r(0), Some(Ok(0)));
    assert_eq!(cvt_r(17), Some(Ok(17)));
    assert_eq!(cvt_r(-4096), Some(Ok((-4096isize) as usize)));
}

#[test]
fn cvt_r_hands_the_first_final_outcome_on_unchanged() {
    // A call that is interrupted twice and then fails for another reason.
    let answers: Vec<isize> = vec![-4, -4, -13, 7];
    let mut issued = 0;
    let mut outcome = None;
    for ret in answers {
        issued += 1;
        if let Some(r) = cvt_r(ret) {
            outcome = Some(r);
            break;
        }
    }
    assert_eq!(issued, 3);
    assert_eq!(outcome, Some(Err(Error::Os { code: EACCES })));
}

#[test]
fn calls_that_are_repeated_when_interrupted() {
    let path = cstr(b"a").unwrap();
    let repeated: Vec<Request> = vec![
        Syscall::Open { path: path.duplicate(), flags: 0, mode: 0 },
        Syscall::Fsync { fd: 3 },
        Syscall::Fdatasync { fd: 3 },
        Syscall::Ftruncate64 { fd: 3, length: 0 },
        Syscall::Chmod { path: path.duplicate(), mode: 0o644 },
    ];
    for call in repeated.iter() {
        assert!(call.restarts());
        assert_eq!(call.settle(-4), None);
        assert_eq!(call.settle(-9), Some(Err(Error::Os { code: 9 })));
        assert_eq!(call.settle(5), Some(Ok(5)));
    }
    let single: Vec<Request> = vec![
        Syscall::Close { fd: 3 },
        Syscall::Read { fd: 3, count: 1 },
        Syscall::Write { fd: 3, count: 1 },
        Syscall::Pread64 { fd: 3, count: 1, offset: 0 },
        Syscall::Pwrite64 { fd: 3, count: 1, offset: 0 },
        Syscall::Llseek { fd: 3, offset: 0, whence: 0 },
        Syscall::Fstat64 { fd: 3 },
        Syscall::Stat64 { path: path.duplicate() },
        Syscall::Lstat64 { path: path.duplicate() },
        Syscall::Getdents64 { fd: 3, count: 32768 },
        Syscall::Mkdir { path: path.duplicate(), mode: 0o777 },
        Syscall::Rmdir { path: path.duplicate() },
        Syscall::Unlink { path: path.duplicate() },
        Syscall::Rename { from: path.duplicate(), to: path.duplicate() },
        Syscall::Readlink { path: path.duplicate(), bufsiz: 256 },
        Syscall::Symlink { target: path.duplicate(), linkpath: path.duplicate() },
        Syscall::Link { target: path.duplicate(), linkpath: path.duplicate() },
        Syscall::Fcntl { fd: 3, cmd: 3, arg: 0 },
        Syscall::Dup { fd: 3 },
        Syscall::Exit { code: 0 },
    ];
    for call in single.iter() {
        assert!(!call.restarts());
        assert_eq!(call.settle(-4), Some(Err(Error::Os { code: EINTR })));
        assert_eq!(call.settle(5), Some(Ok(5)));
    }
}

#[test]
fn error_numbers_are_classified() {
    assert_eq!(decode_error_kind(ENOENT), ErrorKind::NotFound);
    assert_eq!(decode_error_kind(EPERM), ErrorKind::PermissionDenied);
    assert_eq!(decode_error_kind(EACCES), ErrorKind::PermissionDenied);
    assert_eq!(decode_error_kind(EEXIST), ErrorKind::AlreadyExists);
    assert_eq!(decode_error_kind(EINVAL), ErrorKind::InvalidInput);
    assert_eq!(decode_error_kind(EINTR), ErrorKind::Interrupted);
    assert_eq!(decode_error_kind(5), ErrorKind::Other);
    assert_eq!(decode_error_kind(0), ErrorKind::Other);
}

#[test]
fn errors_report_what_they_carry() {
    let os = Error::from_raw_os_error(2);
    assert_eq!(os, Error::Os { code: 2 });
    assert_eq!(os.raw_os_error(), Some(2));
    assert_eq!(os.kind(), ErrorKind::NotFound);
    assert_eq!(os.message(), None);
    let own = Error::new(ErrorKind::InvalidData, "bad");
    assert_eq!(own, Error::Custom { kind: ErrorKind::InvalidData, message: "bad" });
    assert_eq!(own.raw_os_error(), None);
    assert_eq!(own.kind(), ErrorKind::InvalidData);
    assert_eq!(own.message(), Some("bad"));
}
