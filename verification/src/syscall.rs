//! The system call boundary: what can be asked of the kernel, and what the raw
//! value that it hands back means.

use vstd::prelude::*;
use crate::cstring::CString;
use crate::errno::{EINTR, MAX_ERRNO};
use crate::error::Error;

verus! {

/// One system call with its arguments. `P` is the representation of a path
/// argument: the exact bytes handed to the kernel, closing NUL included.
#[allow(inconsistent_fields)]
#[derive(Debug, PartialEq, Eq)]
pub enum Syscall<P> {
    Open { path: P, flags: i32, mode: u16 },
    Close { fd: i32 },
    Read { fd: i32, count: usize },
    Write { fd: i32, count: usize },
    Pread64 { fd: i32, count: usize, offset: i64 },
    Pwrite64 { fd: i32, count: usize, offset: i64 },
    Llseek { fd: i32, offset: i64, whence: u32 },
    Fstat64 { fd: i32 },
    Stat64 { path: P },
    Lstat64 { path: P },
    Fsync { fd: i32 },
    Fdatasync { fd: i32 },
    Ftruncate64 { fd: i32, length: i64 },
    Getdents64 { fd: i32, count: u32 },
    Mkdir { path: P, mode: u16 },
    Rmdir { path: P },
    Unlink { path: P },
    Rename { from: P, to: P },
    Chmod { path: P, mode: u16 },
    Readlink { path: P, bufsiz: i32 },
    Symlink { target: P, linkpath: P },
    Link { target: P, linkpath: P },
    Fcntl { fd: i32, cmd: i32, arg: i32 },
    Dup { fd: i32 },
    Exit { code: i32 },
}

/// A system call as executable code builds it.
pub type Request = Syscall<CString>;

/// A system call as contracts speak of it.
pub type RequestView = Syscall<Seq<u8>>;

impl View for Syscall<CString> {
    type V = Syscall<Seq<u8>>;

    open spec fn view(&self) -> Syscall<Seq<u8>> {
        match *self {
            Syscall::Open { path, flags, mode } => Syscall::Open { path: path@, flags, mode },
            Syscall::Close { fd } => Syscall::Close { fd },
            Syscall::Read { fd, count } => Syscall::Read { fd, count },
            Syscall::Write { fd, count } => Syscall::Write { fd, count },
            Syscall::Pread64 { fd, count, offset } => Syscall::Pread64 { fd, count, offset },
            Syscall::Pwrite64 { fd, count, offset } => Syscall::Pwrite64 { fd, count, offset },
            Syscall::Llseek { fd, offset, whence } => Syscall::Llseek { fd, offset, whence },
            Syscall::Fstat64 { fd } => Syscall::Fstat64 { fd },
            Syscall::Stat64 { path } => Syscall::Stat64 { path: path@ },
            Syscall::Lstat64 { path } => Syscall::Lstat64 { path: path@ },
            Syscall::Fsync { fd } => Syscall::Fsync { fd },
            Syscall::Fdatasync { fd } => Syscall::Fdatasync { fd },
            Syscall::Ftruncate64 { fd, length } => Syscall::Ftruncate64 { fd, length },
            Syscall::Getdents64 { fd, count } => Syscall::Getdents64 { fd, count },
            Syscall::Mkdir { path, mode } => Syscall::Mkdir { path: path@, mode },
            Syscall::Rmdir { path } => Syscall::Rmdir { path: path@ },
            Syscall::Unlink { path } => Syscall::Unlink { path: path@ },
            Syscall::Rename { from, to } => Syscall::Rename { from: from@, to: to@ },
            Syscall::Chmod { path, mode } => Syscall::Chmod { path: path@, mode },
            Syscall::Readlink { path, bufsiz } => Syscall::Readlink { path: path@, bufsiz },
            Syscall::Symlink { target, linkpath } => Syscall::Symlink {
                target: target@,
                linkpath: linkpath@,
            },
            Syscall::Link { target, linkpath } => Syscall::Link {
                target: target@,
                linkpath: linkpath@,
            },
            Syscall::Fcntl { fd, cmd, arg } => Syscall::Fcntl { fd, cmd, arg },
            Syscall::Dup { fd } => Syscall::Dup { fd },
            Syscall::Exit { code } => Syscall::Exit { code },
        }
    }
}

/// Whether a raw return value lies in the range that the kernel reserves for
/// negated error numbers.
pub open spec fn is_error_return(ret: int) -> bool {
    -(MAX_ERRNO as int) <= ret < 0
}

/// What a raw return value means: a value in the reserved range is a failure
/// that carries the negated value as its error number; any other value is the
/// successful result, read as an unsigned machine word.
pub open spec fn cvt_spec(ret: isize) -> Result<usize, Error> {
    if is_error_return(ret as int) {
        Err(Error::Os { code: (-ret) as i32 })
    } else {
        Ok(ret as usize)
    }
}

/// Reads the raw return value of a system call.
pub fn cvt(ret: isize) -> (r: Result<usize, Error>)
    ensures
        r == cvt_spec(ret),
{
    if ret < 0 && ret >= -4095 {
        Err(Error::from_raw_os_error((-ret) as i32))
    } else {
        Ok(ret as usize)
    }
}

/// Whether a raw return value reports a call that a signal cut short.
pub open spec fn is_interrupted_return(ret: isize) -> bool {
    ret == -(EINTR as int)
}

/// What a raw return value means to a caller that repeats interrupted calls:
/// `None` when the call has to be issued again, else what the value means.
pub open spec fn cvt_r_spec(ret: isize) -> Option<Result<usize, Error>> {
    if is_interrupted_return(ret) {
        None
    } else {
        Some(cvt_spec(ret))
    }
}

/// Reads the raw return value of a system call that is repeated for as
/// long as it is interrupted. `None` tells the caller to issue the same call
/// once more; any other outcome is final and is handed on unchanged.
pub fn cvt_r(ret: isize) -> (r: Option<Result<usize, Error>>)
    ensures
        r == cvt_r_spec(ret),
        r is None <==> (cvt_spec(ret) matches Err(e) && e.is_interrupted()),
{
    match cvt(ret) {
        Err(e) => {
            if matches!(e.kind(), crate::error::ErrorKind::Interrupted) {
                None
            } else {
                Some(Err(e))
            }
        },
        Ok(n) => Some(Ok(n)),
    }
}

impl<P> Syscall<P> {
    /// Whether this layer repeats the call when a signal interrupts it.
    pub open spec fn spec_restarts(&self) -> bool {
        match *self {
            Syscall::Open { .. } => true,
            Syscall::Fsync { .. } => true,
            Syscall::Fdatasync { .. } => true,
            Syscall::Ftruncate64 { .. } => true,
            Syscall::Chmod { .. } => true,
            _ => false,
        }
    }

    /// What the raw return value `ret` of this call means.
    pub open spec fn spec_settle(&self, ret: isize) -> Option<Result<usize, Error>> {
        if self.spec_restarts() {
            cvt_r_spec(ret)
        } else {
            Some(cvt_spec(ret))
        }
    }

    /// Whether this layer repeats the call when a signal interrupts it.
    #[verifier::when_used_as_spec(spec_restarts)]
    pub fn restarts(&self) -> (r: bool)
        ensures
            r == self.spec_restarts(),
    {
        match self {
            Syscall::Open { .. } => true,
            Syscall::Fsync { .. } => true,
            Syscall::Fdatasync { .. } => true,
            Syscall::Ftruncate64 { .. } => true,
            Syscall::Chmod { .. } => true,
            _ => false,
        }
    }

    /// Reads the raw return value of this call. `None` tells the caller
    /// to issue the call once more.
    pub fn settle(&self, ret: isize) -> (r: Option<Result<usize, Error>>)
        ensures
            r == self.spec_settle(ret),
    {
        if self.restarts() {
            cvt_r(ret)
        } else {
            Some(cvt(ret))
        }
    }
}

/// A system call that may have been refused before it was built, as contracts
/// speak of it.
pub open spec fn request_view(r: Result<Request, Error>) -> Result<RequestView, Error> {
    match r {
        Ok(call) => Ok(call@),
        Err(e) => Err(e),
    }
}

/// Where an operation that takes several system calls stands after the
/// kernel has answered one of them.
#[derive(Debug, PartialEq, Eq)]
pub enum Progress<M, T> {
    /// The operation goes on: `M` holds it, and names the call to make next.
    More(M),
    /// The operation has ended with this outcome.
    Done(T),
}

} // verus!
