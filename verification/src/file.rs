//! An open file: how it is opened, and the requests that work on it.

use vstd::prelude::*;
use crate::cstring::{cstr, cstr_spec, has_nul, CString};
use crate::errno::EINVAL;
use crate::error::Error;
use crate::fd::{FileDesc, ReadToEnd, ReadToEndView, READ_WINDOW_START};
use crate::linux::{
    FD_CLOEXEC, F_GETFL, F_SETFD, O_ACCMODE, O_RDONLY, O_RDWR, O_WRONLY, SEEK_CUR, SEEK_END,
    SEEK_SET,
};
use crate::open_options::{
    intent_valid, invalid_argument, lemma_open_flags_total, open_flags_spec, OpenIntent,
    OpenOptions, DEFAULT_FILE_MODE,
};
use crate::syscall::{
    cvt, cvt_r, cvt_r_spec, cvt_spec, Progress, Request, RequestView, Syscall,
};

verus! {

/// An open file.
#[derive(Debug, PartialEq, Eq)]
pub struct File(FileDesc);

impl View for File {
    type V = i32;

    closed spec fn view(&self) -> i32 {
        self.0@
    }
}

/// A position in a file, counted from one of three origins.
#[derive(Clone, Copy, Debug, PartialEq, Eq)]
pub enum SeekFrom {
    /// So many bytes from the start of the file.
    Start(u64),
    /// So many bytes from the end of the file.
    End(i64),
    /// So many bytes from the position at hand.
    Current(i64),
}

/// An open in progress, as contracts speak of it.
pub enum OpenFileView {
    /// The file is being opened.
    Opening { path: Seq<u8>, flags: i32, mode: u16 },
    /// The file is open at `fd`, and the descriptor is being marked
    /// close-on-exec.
    Marking { fd: i32 },
    /// Marking failed with `error`, and the descriptor is being released.
    Releasing { fd: i32, error: Error },
}

enum OpenStage {
    Opening { path: CString, flags: i32, mode: u16 },
    Marking { fd: FileDesc },
    Releasing { raw: i32, error: Error },
}

/// An open in progress.
pub struct OpenFile {
    stage: OpenStage,
}

impl View for OpenFile {
    type V = OpenFileView;

    closed spec fn view(&self) -> OpenFileView {
        match self.stage {
            OpenStage::Opening { path, flags, mode } => OpenFileView::Opening {
                path: path@,
                flags,
                mode,
            },
            OpenStage::Marking { fd } => OpenFileView::Marking { fd: fd@ },
            OpenStage::Releasing { raw, error } => OpenFileView::Releasing { fd: raw, error },
        }
    }
}

/// The open of the file whose NUL-terminated name is `path`, with the wishes
/// `o`: wishes that do not go together are refused before anything is asked
/// of the kernel.
pub open spec fn open_c_spec(path: Seq<u8>, o: OpenIntent) -> Result<OpenFileView, Error> {
    match open_flags_spec(o) {
        Ok(flags) => Ok(OpenFileView::Opening { path, flags, mode: o.mode as u16 }),
        Err(e) => Err(e),
    }
}

/// The open of the file named `path` with the wishes `o`. A name that cannot
/// be handed to the kernel is refused first, then wishes that do not go
/// together.
pub open spec fn open_spec(path: Seq<u8>, o: OpenIntent) -> Result<OpenFileView, Error> {
    match cstr_spec(path) {
        Ok(c_path) => open_c_spec(c_path, o),
        Err(e) => Err(e),
    }
}

/// An open comes about exactly for a name that can be handed to the kernel
/// and wishes that go together. It then starts with the one call that opens
/// the file with the flags of the wishes. Where it does not come about there
/// is no call at all: wishes that do not go together are refused with the
/// kernel's error for an invalid argument before anything is asked of the
/// kernel.
pub proof fn lemma_open_refuses_before_any_call(path: Seq<u8>, o: OpenIntent)
    ensures
        open_spec(path, o) is Ok <==> !has_nul(path) && intent_valid(o),
        open_spec(path, o) matches Ok(op) ==> open_flags_spec(o) matches Ok(flags)
            && open_request_spec(op) == (Syscall::<Seq<u8>>::Open {
            path: path.push(0u8),
            flags,
            mode: o.mode as u16,
        }),
        !has_nul(path) && !intent_valid(o) ==> open_spec(path, o) == Err::<OpenFileView, Error>(
            invalid_argument(),
        ),
{
    lemma_open_flags_total(o);
}

/// The wishes with which a file is created: writing, with the file made if
/// it is not there and cut to nothing if it is.
pub open spec fn create_intent() -> OpenIntent {
    OpenIntent {
        read: false,
        write: true,
        append: false,
        truncate: true,
        create: true,
        create_new: false,
        custom_flags: 0,
        mode: DEFAULT_FILE_MODE,
    }
}

/// An open in progress that may have been refused, as contracts speak of it.
pub open spec fn open_view(r: Result<OpenFile, Error>) -> Result<OpenFileView, Error> {
    match r {
        Ok(op) => Ok(op@),
        Err(e) => Err(e),
    }
}

/// The call that an open in progress makes next.
pub open spec fn open_request_spec(s: OpenFileView) -> RequestView {
    match s {
        OpenFileView::Opening { path, flags, mode } => Syscall::Open { path, flags, mode },
        OpenFileView::Marking { fd } => Syscall::Fcntl { fd, cmd: F_SETFD, arg: FD_CLOEXEC },
        OpenFileView::Releasing { fd, .. } => Syscall::Close { fd },
    }
}

/// How an open in progress goes on when the kernel answers its call with the
/// raw return value `ret`. An interrupted open is made again. A failed open
/// ends the operation. A successful one gives the descriptor, which is then
/// marked close-on-exec; if that fails the descriptor is released before the
/// failure is reported, whatever the kernel answers to the release.
pub open spec fn open_resume_spec(s: OpenFileView, ret: isize) -> Progress<
    OpenFileView,
    Result<i32, Error>,
> {
    match s {
        OpenFileView::Opening { .. } => match cvt_r_spec(ret) {
            None => Progress::More(s),
            Some(Err(e)) => Progress::Done(Err(e)),
            Some(Ok(n)) => Progress::More(OpenFileView::Marking { fd: n as i32 }),
        },
        OpenFileView::Marking { fd } => match cvt_spec(ret) {
            Err(error) => Progress::More(OpenFileView::Releasing { fd, error }),
            Ok(_) => Progress::Done(Ok(fd)),
        },
        OpenFileView::Releasing { error, .. } => Progress::Done(Err(error)),
    }
}

/// Where an open stands, as contracts speak of it.
pub open spec fn open_progress_view(p: Progress<OpenFile, Result<File, Error>>) -> Progress<
    OpenFileView,
    Result<i32, Error>,
> {
    match p {
        Progress::More(op) => Progress::More(op@),
        Progress::Done(Ok(file)) => Progress::Done(Ok(file@)),
        Progress::Done(Err(e)) => Progress::Done(Err(e)),
    }
}

/// A descriptor that an open got hold of and could not finish with is
/// released by the very next call, and the open then ends with the failure
/// that stopped it. An open that ends well releases nothing.
pub proof fn lemma_failed_open_releases(fd: i32, ret: isize, released: isize)
    ensures
        match open_resume_spec(OpenFileView::Marking { fd }, ret) {
            Progress::More(s) => cvt_spec(ret) matches Err(e) && open_request_spec(s) == (
            Syscall::<Seq<u8>>::Close { fd }) && open_resume_spec(s, released) == Progress::<
                OpenFileView,
                Result<i32, Error>,
            >::Done(Err(e)),
            Progress::Done(r) => cvt_spec(ret) is Ok && r == Ok::<i32, Error>(fd),
        },
{
}

impl OpenFile {
    /// The call to make next.
    pub fn request(&self) -> (call: Request)
        ensures
            call@ == open_request_spec(self@),
    {
        match &self.stage {
            OpenStage::Opening { path, flags, mode } => Syscall::Open {
                path: path.duplicate(),
                flags: *flags,
                mode: *mode,
            },
            OpenStage::Marking { fd } => fd.set_cloexec(),
            OpenStage::Releasing { raw, .. } => Syscall::Close { fd: *raw },
        }
    }

    /// Takes the kernel's answer to the call that `request` named.
    pub fn resume(self, ret: isize) -> (p: Progress<OpenFile, Result<File, Error>>)
        ensures
            open_progress_view(p) == open_resume_spec(self@, ret),
    {
        match self.stage {
            OpenStage::Opening { path, flags, mode } => match cvt_r(ret) {
                None => Progress::More(
                    OpenFile { stage: OpenStage::Opening { path, flags, mode } },
                ),
                Some(Err(e)) => Progress::Done(Err(e)),
                Some(Ok(n)) => Progress::More(
                    OpenFile { stage: OpenStage::Marking { fd: FileDesc::new(n as i32) } },
                ),
            },
            OpenStage::Marking { fd } => match cvt(ret) {
                Err(error) => Progress::More(
                    OpenFile { stage: OpenStage::Releasing { raw: fd.into_raw(), error } },
                ),
                Ok(_) => Progress::Done(Ok(File(fd))),
            },
            OpenStage::Releasing { error, .. } => Progress::Done(Err(error)),
        }
    }
}

/// The request that moves the position of the file open at `fd`.
pub open spec fn seek_spec(fd: i32, pos: SeekFrom) -> RequestView {
    match pos {
        SeekFrom::Start(off) => Syscall::Llseek { fd, offset: off as i64, whence: SEEK_SET },
        SeekFrom::End(off) => Syscall::Llseek { fd, offset: off, whence: SEEK_END },
        SeekFrom::Current(off) => Syscall::Llseek { fd, offset: off, whence: SEEK_CUR },
    }
}

/// What a seek gives, from the kernel's raw return value `ret` and the
/// position `position` that it wrote: the failure, or the new position.
pub open spec fn seek_result_spec(ret: isize, position: i64) -> Result<u64, Error> {
    match cvt_spec(ret) {
        Ok(_) => Ok(position as u64),
        Err(e) => Err(e),
    }
}

/// What the kernel answers to a seek in a regular file of `size` bytes whose
/// position is `position`: it moves the position to the offset counted from
/// the origin and reports it, unless the origin is none of the three or the
/// new position would lie before the start of the file or beyond what a
/// position can express; then it fails and says that the argument is
/// invalid.
pub open spec fn llseek_answer(size: nat, position: nat, offset: i64, whence: u32) -> (
    isize,
    i64,
) {
    let target: int = if whence == SEEK_SET {
        offset as int
    } else if whence == SEEK_CUR {
        position + offset
    } else {
        size + offset
    };
    if whence > SEEK_END || target < 0 || target > i64::MAX {
        ((-(EINVAL as int)) as isize, 0i64)
    } else {
        (0isize, target as i64)
    }
}

/// What a seek to `pos` gives in a regular file of `size` bytes whose
/// position is `position`.
pub open spec fn seek_outcome(size: nat, position: nat, pos: SeekFrom) -> Result<u64, Error> {
    match seek_spec(0, pos) {
        Syscall::Llseek { offset, whence, .. } => {
            let (ret, reported) = llseek_answer(size, position, offset, whence);
            seek_result_spec(ret, reported)
        },
        _ => Err(Error::Os { code: EINVAL }),
    }
}

/// A seek from the start of a file to an offset that a position can express
/// succeeds and reports that offset, whatever the size of the file and
/// wherever its position was.
pub proof fn lemma_seek_from_start(size: nat, position: nat, offset: u64)
    requires
        offset <= i64::MAX,
    ensures
        seek_outcome(size, position, SeekFrom::Start(offset)) == Ok::<u64, Error>(offset),
{
}

/// A seek from the position at hand to before the start of the file fails
/// with the kernel's error for an invalid argument; so does every seek
/// backwards in an empty file.
pub proof fn lemma_seek_before_start(size: nat, position: nat, offset: i64)
    requires
        position + offset < 0,
    ensures
        seek_outcome(size, position, SeekFrom::Current(offset)) == Err::<u64, Error>(
            Error::Os { code: EINVAL },
        ),
        (Error::Os { code: EINVAL }).spec_kind() == crate::error::ErrorKind::InvalidInput,
{
}

/// What a request for a descriptor gives, from the kernel's raw return value.
pub open spec fn descriptor_spec(ret: isize) -> Result<i32, Error> {
    match cvt_spec(ret) {
        Ok(n) => Ok(n as i32),
        Err(e) => Err(e),
    }
}

/// An open file that may have failed to come about, as contracts speak of it.
pub open spec fn file_view(r: Result<File, Error>) -> Result<i32, Error> {
    match r {
        Ok(file) => Ok(file@),
        Err(e) => Err(e),
    }
}

/// Whether a file is open for reading and for writing, as its status flags
/// say. `None` where the kernel gave no flags, or flags with an access mode
/// that is none of the three.
pub open spec fn access_of_flags_spec(ret: isize) -> Option<(bool, bool)> {
    if ret == -1 {
        None
    } else {
        let mode = (ret as i32) & O_ACCMODE;
        if mode == O_RDONLY {
            Some((true, false))
        } else if mode == O_RDWR {
            Some((true, true))
        } else if mode == O_WRONLY {
            Some((false, true))
        } else {
            None
        }
    }
}

impl File {
    /// Starts to open the file named `path` with the wishes `opts`.
    pub fn open(path: &[u8], opts: &OpenOptions) -> (r: Result<OpenFile, Error>)
        ensures
            open_view(r) == open_spec(path@, opts@),
    {
        let c_path = cstr(path)?;
        File::open_c(c_path, opts)
    }

    /// Starts to open the file named `path` to be written from its start: the
    /// file is made if it is not there and cut to nothing if it is.
    pub fn create(path: &[u8]) -> (r: Result<OpenFile, Error>)
        ensures
            open_view(r) == open_spec(path@, create_intent()),
    {
        let mut oo = OpenOptions::new();
        oo.write(true);
        oo.create(true);
        oo.truncate(true);
        File::open(path, &oo)
    }

    /// Starts to open the file whose NUL-terminated name is `path` with the
    /// wishes `opts`.
    pub fn open_c(path: CString, opts: &OpenOptions) -> (r: Result<OpenFile, Error>)
        ensures
            open_view(r) == open_c_spec(path@, opts@),
    {
        let flags: i32 = opts.open_flags()?;
        Ok(OpenFile { stage: OpenStage::Opening { path, flags, mode: opts.creation_mode_bits() } })
    }

    /// The file that is open at the descriptor `fd`.
    pub fn from_fd(fd: FileDesc) -> (file: File)
        ensures
            file@ == fd@,
    {
        File(fd)
    }

    /// The request for the metadata of the file.
    pub fn file_attr(&self) -> (call: Request)
        ensures
            call@ == (Syscall::<Seq<u8>>::Fstat64 { fd: self@ }),
    {
        Syscall::Fstat64 { fd: self.0.raw() }
    }

    /// The request that makes the kernel write the file's data and metadata
    /// out.
    pub fn fsync(&self) -> (call: Request)
        ensures
            call@ == (Syscall::<Seq<u8>>::Fsync { fd: self@ }),
    {
        Syscall::Fsync { fd: self.0.raw() }
    }

    /// The request that makes the kernel write the file's data out.
    pub fn datasync(&self) -> (call: Request)
        ensures
            call@ == (Syscall::<Seq<u8>>::Fdatasync { fd: self@ }),
    {
        Syscall::Fdatasync { fd: self.0.raw() }
    }

    /// The request that cuts or extends the file to `size` bytes.
    pub fn truncate(&self, size: u64) -> (call: Request)
        ensures
            call@ == (Syscall::<Seq<u8>>::Ftruncate64 { fd: self@, length: size as i64 }),
    {
        Syscall::Ftruncate64 { fd: self.0.raw(), length: size as i64 }
    }

    /// The request that reads up to `count` bytes at the file's position.
    pub fn read(&self, count: usize) -> (call: Request)
        ensures
            call@ == (Syscall::<Seq<u8>>::Read { fd: self@, count }),
    {
        self.0.read(count)
    }

    /// Starts to read the file to its end. What is read is added to `buf`,
    /// which the operation hands back when it ends.
    pub fn read_to_end(&self, buf: Vec<u8>) -> (op: ReadToEnd)
        ensures
            op@ == (ReadToEndView {
                fd: self@,
                buf: buf@,
                start_len: buf@.len(),
                room: 0,
                window: READ_WINDOW_START as nat,
            }),
            op@.wf(),
    {
        self.0.read_to_end(buf)
    }

    /// The request that reads up to `count` bytes at `offset`.
    pub fn read_at(&self, count: usize, offset: u64) -> (call: Request)
        ensures
            call@ == (Syscall::<Seq<u8>>::Pread64 { fd: self@, count, offset: offset as i64 }),
    {
        self.0.read_at(count, offset)
    }

    /// The request that writes the bytes of `buf` at the file's position.
    pub fn write(&self, buf: &[u8]) -> (call: Request)
        ensures
            call@ == (Syscall::<Seq<u8>>::Write { fd: self@, count: buf@.len() as usize }),
    {
        self.0.write(buf)
    }

    /// The request that writes the bytes of `buf` at `offset`.
    pub fn write_at(&self, buf: &[u8], offset: u64) -> (call: Request)
        ensures
            call@ == (Syscall::<Seq<u8>>::Pwrite64 {
                fd: self@,
                count: buf@.len() as usize,
                offset: offset as i64,
            }),
    {
        self.0.write_at(buf, offset)
    }

    /// Nothing is held back in this layer, so there is nothing to flush and
    /// nothing to ask of the kernel.
    pub fn flush(&self) -> (r: Result<(), Error>)
        ensures
            r == Ok::<(), Error>(()),
    {
        Ok(())
    }

    /// The request that moves the file's position.
    pub fn seek(&self, pos: SeekFrom) -> (call: Request)
        ensures
            call@ == seek_spec(self@, pos),
    {
        let (whence, offset): (u32, i64) = match pos {
            SeekFrom::Start(off) => (SEEK_SET, off as i64),
            SeekFrom::End(off) => (SEEK_END, off),
            SeekFrom::Current(off) => (SEEK_CUR, off),
        };
        Syscall::Llseek { fd: self.0.raw(), offset, whence }
    }

    /// What a seek gives, from the kernel's raw return value `ret` and the
    /// position that it wrote.
    pub fn seek_result(ret: isize, position: i64) -> (r: Result<u64, Error>)
        ensures
            r == seek_result_spec(ret, position),
    {
        cvt(ret)?;
        Ok(position as u64)
    }

    /// The request for a second, independent descriptor of this open file.
    pub fn duplicate(&self) -> (call: Request)
        ensures
            call@ == (Syscall::<Seq<u8>>::Dup { fd: self@ }),
    {
        self.0.duplicate()
    }

    /// The file that a request for a descriptor gives, from the kernel's raw
    /// return value.
    pub fn from_return(ret: isize) -> (r: Result<File, Error>)
        ensures
            file_view(r) == descriptor_spec(ret),
    {
        let n: usize = cvt(ret)?;
        Ok(File(FileDesc::new(n as i32)))
    }

    /// The descriptor of the file.
    pub fn fd(&self) -> (fd: &FileDesc)
        ensures
            fd@ == self@,
    {
        &self.0
    }

    /// Gives up the file for its descriptor.
    pub fn into_fd(self) -> (fd: FileDesc)
        ensures
            fd@ == self@,
    {
        self.0
    }

    /// The request for the status flags of the file.
    pub fn get_flags(&self) -> (call: Request)
        ensures
            call@ == (Syscall::<Seq<u8>>::Fcntl { fd: self@, cmd: F_GETFL, arg: 0 }),
    {
        Syscall::Fcntl { fd: self.0.raw(), cmd: F_GETFL, arg: 0 }
    }

    /// Whether the file is open for reading and for writing, from the
    /// kernel's raw answer to the request for its status flags.
    pub fn access_of_flags(ret: isize) -> (r: Option<(bool, bool)>)
        ensures
            r == access_of_flags_spec(ret),
    {
        if ret == -1 {
            return None;
        }
        let mode: i32 = (ret as i32) & O_ACCMODE;
        if mode == O_RDONLY {
            Some((true, false))
        } else if mode == O_RDWR {
            Some((true, true))
        } else if mode == O_WRONLY {
            Some((false, true))
        } else {
            None
        }
    }
}

} // verus!
