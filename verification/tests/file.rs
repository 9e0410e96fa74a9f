use steed::cstring::{cstr, CString};
use steed::error::{Error, ErrorKind};
use steed::fd::FileDesc;
use steed::file::{File, OpenFile, SeekFrom};
use steed::open_options::OpenOptions;
use steed::syscall::{Progress, Request, Syscall};

fn c(name: &[u8]) -> CString {
    cstr(name).unwrap()
}

fn read_write() -> OpenOptions {
    let mut o = OpenOptions::new();
    o.read(true);
    o.write(true);
    o
}

fn more(p: Progress<OpenFile, Result<File, Error>>) -> OpenFile {
    match p {
        Progress::More(op) => op,
        Progress::Done(r) => panic!("ended: {:?}", r),
    }
}

fn done(p: Progress<OpenFile, Result<File, Error>>) -> Result<File, Error> {
    match p {
        Progress::Done(r) => r,
        Progress::More(op) => panic!("goes on with {:?}", op.request()),
    }
}

fn file(fd: i32) -> File {
    File::from_fd(FileDesc::new(fd))
}

// A file of `size` bytes with its position, as the kernel keeps them.
struct Seekable {
    size: i64,
    position: i64,
}

impl Seekable {
    // The kernel's answer to a seek: the return value and the position it
    // reports.
    fn llseek(&mut self, call: &Request) -> (isize, i64) {
        let (offset, whence) = match call {
            Syscall::Llseek { offset, whence, .. } => (*offset, *whence),
            other => panic!("no seek: {:?}", other),
        };
        let base = match whence {
            0 => 0,
            1 => self.position,
            2 => self.size,
            _ => return (-22, 0),
        };
        match base.checked_add(offset) {
            Some(target) if target >= 0 => {
                self.position = target;
                (0, target)
            }
            _ => (-22, 0),
        }
    }
}

#[test]
fn open_asks_for_the_file_with_the_encoded_flags() {
    let op = File::open(b"/etc/hosts", &read_write()).unwrap();
    assert_eq!(
        op.request(),
        Syscall::Open { path: c(b"/etc/hosts"), flags: 0o2100002, mode: 0o666 }
    );
}

#[test]
fn open_refuses_a_name_with_a_nul_before_it_looks_at_the_wishes() {
    let nul = Error::Custom {
        kind: ErrorKind::InvalidInput,
        message: "data provided contains a nul byte",
    };
    assert_eq!(File::open(b"a\0b", &read_write()).err(), Some(nul));
    // Both the name and the wishes are bad: the name is reported.
    assert_eq!(File::open(b"a\0b", &OpenOptions::new()).err(), Some(nul));
    assert_eq!(File::open(b"ab", &OpenOptions::new()).err(), Some(Error::Os { code: 22 }));
}

#[test]
fn open_c_takes_the_name_as_it_is() {
    let op = File::open_c(c(b"x"), &read_write()).unwrap();
    assert_eq!(op.request(), Syscall::Open { path: c(b"x"), flags: 0o2100002, mode: 0o666 });
    assert_eq!(
        File::open_c(c(b"x"), &OpenOptions::new()).err(),
        Some(Error::Os { code: 22 })
    );
}

#[test]
fn create_is_write_create_truncate() {
    let op = File::create(b"out").unwrap();
    assert_eq!(op.request(), Syscall::Open { path: c(b"out"), flags: 0o2101101, mode: 0o666 });
}

#[test]
fn an_open_marks_the_descriptor_and_gives_the_file() {
    let op = File::open(b"f", &read_write()).unwrap();
    let op = more(op.resume(5));
    assert_eq!(op.request(), Syscall::Fcntl { fd: 5, cmd: 2, arg: 1 });
    let f = done(op.resume(0)).unwrap();
    assert_eq!(f.fd().raw(), 5);
    assert_eq!(f.into_fd().into_raw(), 5);
}

#[test]
fn an_interrupted_open_is_made_again() {
    let op = File::open(b"f", &read_write()).unwrap();
    let first = op.request();
    let op = more(op.resume(-4));
    assert_eq!(op.request(), first);
    let op = more(op.resume(-4));
    assert_eq!(op.request(), first);
    let op = more(op.resume(3));
    assert_eq!(op.request(), Syscall::Fcntl { fd: 3, cmd: 2, arg: 1 });
}

#[test]
fn a_failed_open_ends_with_the_failure() {
    let op = File::open(b"f", &read_write()).unwrap();
    assert_eq!(done(op.resume(-2)), Err(Error::Os { code: 2 }));
    let op = File::open(b"f", &read_write()).unwrap();
    assert_eq!(done(op.resume(-13)).unwrap_err().kind(), ErrorKind::PermissionDenied);
}

#[test]
fn a_descriptor_that_cannot_be_marked_is_released() {
    let op = File::open(b"f", &read_write()).unwrap();
    let op = more(op.resume(8));
    let op = more(op.resume(-9));
    assert_eq!(op.request(), Syscall::Close { fd: 8 });
    // Whatever the release gives, the open reports why it failed.
    assert_eq!(done(op.resume(0)), Err(Error::Os { code: 9 }));

    let op = File::open(b"f", &read_write()).unwrap();
    let op = more(more(op.resume(8)).resume(-9));
    assert_eq!(done(op.resume(-5)), Err(Error::Os { code: 9 }));
}

#[test]
fn marking_is_not_repeated_when_interrupted() {
    let op = File::open(b"f", &read_write()).unwrap();
    let op = more(more(op.resume(8)).resume(-4));
    assert_eq!(op.request(), Syscall::Close { fd: 8 });
    assert_eq!(done(op.resume(0)), Err(Error::Os { code: 4 }));
}

#[test]
fn file_requests_name_the_call_and_its_arguments() {
    let f = file(6);
    assert_eq!(f.file_attr(), Syscall::Fstat64 { fd: 6 });
    assert_eq!(f.fsync(), Syscall::Fsync { fd: 6 });
    assert_eq!(f.datasync(), Syscall::Fdatasync { fd: 6 });
    assert_eq!(f.truncate(1000), Syscall::Ftruncate64 { fd: 6, length: 1000 });
    assert_eq!(f.truncate(u64::MAX), Syscall::Ftruncate64 { fd: 6, length: -1 });
    assert_eq!(f.read(16), Syscall::Read { fd: 6, count: 16 });
    assert_eq!(f.read_at(16, 32), Syscall::Pread64 { fd: 6, count: 16, offset: 32 });
    assert_eq!(f.write(b"abcd"), Syscall::Write { fd: 6, count: 4 });
    assert_eq!(f.write_at(b"abcd", 9), Syscall::Pwrite64 { fd: 6, count: 4, offset: 9 });
    assert_eq!(f.duplicate(), Syscall::Dup { fd: 6 });
    assert_eq!(f.get_flags(), Syscall::Fcntl { fd: 6, cmd: 3, arg: 0 });
    assert_eq!(f.flush(), Ok(()));
}

#[test]
fn a_file_reads_to_its_end_through_its_descriptor() {
    let f = file(6);
    let op = f.read_to_end(b"ab".to_vec());
    assert_eq!(op.request(), Syscall::Read { fd: 6, count: 32 });
    match op.resume(0, &[]) {
        Progress::Done((buf, r)) => {
            assert_eq!(buf, b"ab".to_vec());
            assert_eq!(r, Ok(0));
        }
        Progress::More(_) => panic!("did not end"),
    }
}

#[test]
fn seek_names_the_origin() {
    let f = file(6);
    assert_eq!(f.seek(SeekFrom::Start(10)), Syscall::Llseek { fd: 6, offset: 10, whence: 0 });
    assert_eq!(f.seek(SeekFrom::Current(-3)), Syscall::Llseek { fd: 6, offset: -3, whence: 1 });
    assert_eq!(f.seek(SeekFrom::End(-1)), Syscall::Llseek { fd: 6, offset: -1, whence: 2 });
    assert_eq!(f.seek(SeekFrom::End(0)), Syscall::Llseek { fd: 6, offset: 0, whence: 2 });
    // An offset from the start that is too large becomes negative, which the
    // kernel refuses.
    assert_eq!(f.seek(SeekFrom::Start(u64::MAX)), Syscall::Llseek { fd: 6, offset: -1, whence: 0 });
}

#[test]
fn seek_result_is_the_reported_position_or_the_failure() {
    assert_eq!(File::seek_result(0, 1234), Ok(1234));
    assert_eq!(File::seek_result(0, 0), Ok(0));
    assert_eq!(File::seek_result(0, i64::MAX), Ok(i64::MAX as u64));
    assert_eq!(File::seek_result(-22, 0), Err(Error::Os { code: 22 }));
    assert_eq!(File::seek_result(-9, 77), Err(Error::Os { code: 9 }));
}

#[test]
fn seeking_backwards_in_an_empty_file_is_an_invalid_argument() {
    let f = file(6);
    let mut kernel = Seekable { size: 0, position: 0 };
    let (ret, position) = kernel.llseek(&f.seek(SeekFrom::Current(-1)));
    let r = File::seek_result(ret, position);
    assert_eq!(r, Err(Error::Os { code: 22 }));
    assert_eq!(r.unwrap_err().kind(), ErrorKind::InvalidInput);
    let (ret, position) = kernel.llseek(&f.seek(SeekFrom::End(-5)));
    assert_eq!(File::seek_result(ret, position), Err(Error::Os { code: 22 }));
}

#[test]
fn seeking_from_the_start_reports_the_offset() {
    let f = file(6);
    for size in [0i64, 1, 4096] {
        let mut kernel = Seekable { size, position: size / 2 };
        for offset in [0u64, 1, 100, 4096, 1 << 40, i64::MAX as u64] {
            let (ret, position) = kernel.llseek(&f.seek(SeekFrom::Start(offset)));
            assert_eq!(File::seek_result(ret, position), Ok(offset));
        }
    }
}

#[test]
fn seeking_from_the_position_and_from_the_end() {
    let f = file(6);
    let mut kernel = Seekable { size: 100, position: 0 };
    let (ret, position) = kernel.llseek(&f.seek(SeekFrom::Start(40)));
    assert_eq!(File::seek_result(ret, position), Ok(40));
    let (ret, position) = kernel.llseek(&f.seek(SeekFrom::Current(-15)));
    assert_eq!(File::seek_result(ret, position), Ok(25));
    let (ret, position) = kernel.llseek(&f.seek(SeekFrom::End(-100)));
    assert_eq!(File::seek_result(ret, position), Ok(0));
    let (ret, position) = kernel.llseek(&f.seek(SeekFrom::End(20)));
    assert_eq!(File::seek_result(ret, position), Ok(120));
    let (ret, position) = kernel.llseek(&f.seek(SeekFrom::Current(-121)));
    assert_eq!(File::seek_result(ret, position), Err(Error::Os { code: 22 }));
}

#[test]
fn a_duplicate_is_a_file_of_its_own() {
    let f = file(6);
    assert_eq!(f.duplicate(), Syscall::Dup { fd: 6 });
    let g = File::from_return(7).unwrap();
    assert_eq!(g.fd().raw(), 7);
    assert_eq!(f.fd().raw(), 6);
    assert_eq!(File::from_return(-24).err(), Some(Error::Os { code: 24 }));
    assert_eq!(File::from_return(-4).err(), Some(Error::Os { code: 4 }));
}

#[test]
fn status_flags_say_how_a_file_is_open() {
    assert_eq!(File::access_of_flags(0o100000), Some((true, false)));
    assert_eq!(File::access_of_flags(0o100001), Some((false, true)));
    assert_eq!(File::access_of_flags(0o102002), Some((true, true)));
    assert_eq!(File::access_of_flags(0), Some((true, false)));
    assert_eq!(File::access_of_flags(3), None);
    assert_eq!(File::access_of_flags(-1), None);
}
