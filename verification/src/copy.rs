//! Copying a file by name.
//!
//! The source has to be a regular file. It is opened to be read, the target is
//! opened to be written, made if it is not there and cut to nothing if it is.
//! The bytes of the source are then read chunk by chunk, and each chunk is
//! written until the kernel has taken all of it. At the end the target gets
//! the permission bits of the source. Both descriptors are released on every
//! way out.

use vstd::prelude::*;
use crate::attr::{mode_has_format, FilePermissions, Stat64, PERMISSION_BITS};
use crate::cstring::{cstr, has_nul, CString};
use crate::error::{Error, ErrorKind};
use crate::file::{
    create_intent, open_request_spec, open_resume_spec, open_spec, File, OpenFile, OpenFileView,
};
use crate::linux::S_IFREG;
use crate::open_options::{OpenIntent, OpenOptions, DEFAULT_FILE_MODE};
use crate::syscall::{cvt, cvt_r, cvt_r_spec, cvt_spec, Progress, Request, RequestView, Syscall};

verus! {

/// The number of bytes asked of the source with each read.
pub const COPY_BUF_SIZE: usize = 8192;

/// The two open files of a copy, the name of the target as the kernel takes
/// it, and the permission bits of the source.
pub struct CopyEnds {
    pub reader: i32,
    pub writer: i32,
    pub to_c: Seq<u8>,
    pub perm: u32,
}

/// A copy in progress, as contracts speak of it.
pub enum CopyFileView {
    /// The metadata of the source is being asked for.
    Probing { from: Seq<u8>, to: Seq<u8> },
    /// The source is being opened.
    OpeningSource { op: OpenFileView, to: Seq<u8> },
    /// The source is open at `reader`; the target is being opened.
    OpeningTarget { reader: i32, op: OpenFileView, to_c: Seq<u8> },
    /// Both files are open; the metadata of the source is being asked for.
    Inspecting { reader: i32, writer: i32, to_c: Seq<u8> },
    /// A chunk of the source is being read; `written` bytes are copied.
    Reading { ends: CopyEnds, written: u64 },
    /// The bytes `pending` were read and are being written to the target.
    Writing { ends: CopyEnds, written: u64, pending: Seq<u8> },
    /// All bytes are copied; the target is given the permission bits.
    SettingPerm { ends: CopyEnds, written: u64 },
    /// The copy is over with `outcome`; the target is being released.
    ClosingWriter { reader: i32, writer: i32, outcome: Result<u64, Error> },
    /// The copy is over with `outcome`; the source is being released.
    ClosingReader { reader: i32, outcome: Result<u64, Error> },
}

/// The wishes with which the source of a copy is opened: reading.
pub open spec fn source_intent() -> OpenIntent {
    OpenIntent {
        read: true,
        write: false,
        append: false,
        truncate: false,
        create: false,
        create_new: false,
        custom_flags: 0,
        mode: DEFAULT_FILE_MODE,
    }
}

/// The failure of a copy whose source is not there or is no regular file.
pub open spec fn not_regular_error() -> Error {
    Error::Custom {
        kind: ErrorKind::InvalidInput,
        message: "the source path is not an existing regular file",
    }
}

/// The failure of a copy whose target takes no more bytes.
pub open spec fn write_zero_error() -> Error {
    Error::Custom { kind: ErrorKind::WriteZero, message: "failed to write whole buffer" }
}

/// A count of bytes that has grown by `n`; it stays at the largest count
/// instead of passing it.
pub open spec fn counted(written: u64, n: nat) -> u64 {
    if written + n > u64::MAX {
        u64::MAX
    } else {
        (written + n) as u64
    }
}

/// The copy of the file named `from` to the name `to`: a source whose name
/// cannot be handed to the kernel is no file.
pub open spec fn copy_spec(from: Seq<u8>, to: Seq<u8>) -> Result<CopyFileView, Error> {
    if has_nul(from) {
        Err(not_regular_error())
    } else {
        Ok(CopyFileView::Probing { from, to })
    }
}

impl CopyFileView {
    /// What holds of every copy in progress.
    pub open spec fn wf(self) -> bool {
        match self {
            CopyFileView::Probing { from, .. } => !has_nul(from),
            CopyFileView::Writing { pending, .. } => 0 < pending.len(),
            _ => true,
        }
    }

    /// The call to make next.
    pub open spec fn request(self) -> RequestView {
        match self {
            CopyFileView::Probing { from, .. } => Syscall::Stat64 { path: from.push(0u8) },
            CopyFileView::OpeningSource { op, .. } => open_request_spec(op),
            CopyFileView::OpeningTarget { op, .. } => open_request_spec(op),
            CopyFileView::Inspecting { reader, .. } => Syscall::Fstat64 { fd: reader },
            CopyFileView::Reading { ends, .. } => Syscall::Read {
                fd: ends.reader,
                count: COPY_BUF_SIZE,
            },
            CopyFileView::Writing { ends, pending, .. } => Syscall::Write {
                fd: ends.writer,
                count: pending.len() as usize,
            },
            CopyFileView::SettingPerm { ends, .. } => Syscall::Chmod {
                path: ends.to_c,
                mode: ends.perm as u16,
            },
            CopyFileView::ClosingWriter { writer, .. } => Syscall::Close { fd: writer },
            CopyFileView::ClosingReader { reader, .. } => Syscall::Close { fd: reader },
        }
    }

    /// The bytes that go with the call to make next: those that a write hands
    /// to the kernel, none with any other call.
    pub open spec fn payload(self) -> Seq<u8> {
        match self {
            CopyFileView::Writing { pending, .. } => pending,
            _ => Seq::empty(),
        }
    }

    /// Whether the kernel's answer is one that the call at hand can get: a
    /// read gives no more bytes than it was asked for, and `data` holds them;
    /// a write takes no more bytes than it was handed.
    pub open spec fn admits(self, ret: isize, data: Seq<u8>) -> bool {
        match self {
            CopyFileView::Reading { .. } => cvt_spec(ret) matches Ok(n) ==> n <= COPY_BUF_SIZE
                && n <= data.len(),
            CopyFileView::Writing { pending, .. } => cvt_spec(ret) matches Ok(n) ==> n
                <= pending.len(),
            _ => true,
        }
    }

    /// The copy that is over with `outcome` but for the release of its two
    /// descriptors: the target goes first.
    pub open spec fn finish(ends: CopyEnds, outcome: Result<u64, Error>) -> CopyFileView {
        CopyFileView::ClosingWriter { reader: ends.reader, writer: ends.writer, outcome }
    }

    /// How the copy goes on when the kernel answers the call at hand with
    /// the raw return value `ret`; `data` is the buffer that a read wrote to,
    /// `stat` the record that a request for metadata wrote.
    pub open spec fn resume(self, ret: isize, data: Seq<u8>, stat: Stat64) -> Progress<
        CopyFileView,
        Result<u64, Error>,
    > {
        match self {
            CopyFileView::Probing { from, to } => if cvt_spec(ret) is Ok && mode_has_format(
                stat.st_mode,
                S_IFREG,
            ) {
                match open_spec(from, source_intent()) {
                    Ok(op) => Progress::More(CopyFileView::OpeningSource { op, to }),
                    Err(e) => Progress::Done(Err(e)),
                }
            } else {
                Progress::Done(Err(not_regular_error()))
            },
            CopyFileView::OpeningSource { op, to } => match open_resume_spec(op, ret) {
                Progress::More(op) => Progress::More(CopyFileView::OpeningSource { op, to }),
                Progress::Done(Err(e)) => Progress::Done(Err(e)),
                Progress::Done(Ok(reader)) => match open_spec(to, create_intent()) {
                    Ok(op) => Progress::More(
                        CopyFileView::OpeningTarget { reader, op, to_c: to.push(0u8) },
                    ),
                    Err(e) => Progress::More(
                        CopyFileView::ClosingReader { reader, outcome: Err(e) },
                    ),
                },
            },
            CopyFileView::OpeningTarget { reader, op, to_c } => match open_resume_spec(op, ret) {
                Progress::More(op) => Progress::More(
                    CopyFileView::OpeningTarget { reader, op, to_c },
                ),
                Progress::Done(Err(e)) => Progress::More(
                    CopyFileView::ClosingReader { reader, outcome: Err(e) },
                ),
                Progress::Done(Ok(writer)) => Progress::More(
                    CopyFileView::Inspecting { reader, writer, to_c },
                ),
            },
            CopyFileView::Inspecting { reader, writer, to_c } => match cvt_spec(ret) {
                Err(e) => Progress::More(
                    CopyFileView::ClosingWriter { reader, writer, outcome: Err(e) },
                ),
                Ok(_) => Progress::More(
                    CopyFileView::Reading {
                        ends: CopyEnds {
                            reader,
                            writer,
                            to_c,
                            perm: stat.st_mode & PERMISSION_BITS,
                        },
                        written: 0,
                    },
                ),
            },
            CopyFileView::Reading { ends, written } => match cvt_spec(ret) {
                Err(e) => if e.is_interrupted() {
                    Progress::More(self)
                } else {
                    Progress::More(Self::finish(ends, Err(e)))
                },
                Ok(n) => if n == 0 {
                    Progress::More(CopyFileView::SettingPerm { ends, written })
                } else {
                    Progress::More(
                        CopyFileView::Writing { ends, written, pending: data.take(n as int) },
                    )
                },
            },
            CopyFileView::Writing { ends, written, pending } => match cvt_spec(ret) {
                Err(e) => if e.is_interrupted() {
                    Progress::More(self)
                } else {
                    Progress::More(Self::finish(ends, Err(e)))
                },
                Ok(n) => if n == 0 {
                    Progress::More(Self::finish(ends, Err(write_zero_error())))
                } else if n == pending.len() {
                    Progress::More(
                        CopyFileView::Reading { ends, written: counted(written, n as nat) },
                    )
                } else {
                    Progress::More(
                        CopyFileView::Writing {
                            ends,
                            written: counted(written, n as nat),
                            pending: pending.skip(n as int),
                        },
                    )
                },
            },
            CopyFileView::SettingPerm { ends, written } => match cvt_r_spec(ret) {
                None => Progress::More(self),
                Some(Err(e)) => Progress::More(Self::finish(ends, Err(e))),
                Some(Ok(_)) => Progress::More(Self::finish(ends, Ok(written))),
            },
            CopyFileView::ClosingWriter { reader, outcome, .. } => Progress::More(
                CopyFileView::ClosingReader { reader, outcome },
            ),
            CopyFileView::ClosingReader { outcome, .. } => Progress::Done(outcome),
        }
    }
}

struct Ends {
    reader: File,
    writer: File,
    to_c: CString,
    perm: FilePermissions,
}

impl View for Ends {
    type V = CopyEnds;

    closed spec fn view(&self) -> CopyEnds {
        CopyEnds {
            reader: self.reader@,
            writer: self.writer@,
            to_c: self.to_c@,
            perm: self.perm@,
        }
    }
}

enum CopyStage {
    Probing { from: Vec<u8>, from_c: CString, to: Vec<u8> },
    OpeningSource { op: OpenFile, to: Vec<u8> },
    OpeningTarget { reader: File, op: OpenFile, to_c: CString },
    Inspecting { reader: File, writer: File, to_c: CString },
    Reading { ends: Ends, written: u64 },
    Writing { ends: Ends, written: u64, chunk: Vec<u8>, offset: usize },
    SettingPerm { ends: Ends, written: u64 },
    ClosingWriter { reader_fd: i32, writer_fd: i32, outcome: Result<u64, Error> },
    ClosingReader { reader_fd: i32, outcome: Result<u64, Error> },
}

/// A copy in progress.
pub struct CopyFile {
    stage: CopyStage,
}

impl View for CopyFile {
    type V = CopyFileView;

    closed spec fn view(&self) -> CopyFileView {
        match self.stage {
            CopyStage::Probing { from, to, .. } => CopyFileView::Probing { from: from@, to: to@ },
            CopyStage::OpeningSource { op, to } => CopyFileView::OpeningSource {
                op: op@,
                to: to@,
            },
            CopyStage::OpeningTarget { reader, op, to_c } => CopyFileView::OpeningTarget {
                reader: reader@,
                op: op@,
                to_c: to_c@,
            },
            CopyStage::Inspecting { reader, writer, to_c } => CopyFileView::Inspecting {
                reader: reader@,
                writer: writer@,
                to_c: to_c@,
            },
            CopyStage::Reading { ends, written } => CopyFileView::Reading { ends: ends@, written },
            CopyStage::Writing { ends, written, chunk, offset } => CopyFileView::Writing {
                ends: ends@,
                written,
                pending: chunk@.skip(offset as int),
            },
            CopyStage::SettingPerm { ends, written } => CopyFileView::SettingPerm {
                ends: ends@,
                written,
            },
            CopyStage::ClosingWriter { reader_fd, writer_fd, outcome } => {
                CopyFileView::ClosingWriter { reader: reader_fd, writer: writer_fd, outcome }
            },
            CopyStage::ClosingReader { reader_fd, outcome } => CopyFileView::ClosingReader {
                reader: reader_fd,
                outcome,
            },
        }
    }
}

/// A copy that may have been refused, as contracts speak of it.
pub open spec fn copy_view(r: Result<CopyFile, Error>) -> Result<CopyFileView, Error> {
    match r {
        Ok(op) => Ok(op@),
        Err(e) => Err(e),
    }
}

/// Where a copy stands, as contracts speak of it.
pub open spec fn copy_progress_view(p: Progress<CopyFile, Result<u64, Error>>) -> Progress<
    CopyFileView,
    Result<u64, Error>,
> {
    match p {
        Progress::More(op) => Progress::More(op@),
        Progress::Done(r) => Progress::Done(r),
    }
}

/// A count of bytes grown by `n`.
fn count(written: u64, n: usize) -> (total: u64)
    ensures
        total == counted(written, n as nat),
{
    if n as u64 > u64::MAX - written {
        u64::MAX
    } else {
        written + n as u64
    }
}

/// Starts to copy the file named `from` to the name `to`.
pub fn copy(from: &[u8], to: &[u8]) -> (r: Result<CopyFile, Error>)
    ensures
        copy_view(r) == copy_spec(from@, to@),
        r matches Ok(op) ==> op@.wf(),
{
    match cstr(from) {
        Ok(from_c) => Ok(
            CopyFile {
                stage: CopyStage::Probing {
                    from: vstd::slice::slice_to_vec(from),
                    from_c,
                    to: vstd::slice::slice_to_vec(to),
                },
            },
        ),
        Err(_) => Err(
            Error::new(
                ErrorKind::InvalidInput,
                "the source path is not an existing regular file",
            ),
        ),
    }
}

impl CopyFile {
    #[verifier::type_invariant]
    spec fn inv(&self) -> bool {
        match self.stage {
            CopyStage::Probing { from, from_c, .. } => !has_nul(from@) && from_c@ == from@.push(
                0u8,
            ),
            CopyStage::Writing { chunk, offset, .. } => offset < chunk@.len(),
            _ => true,
        }
    }

    /// The stage at which a copy is over but for the release of its files.
    fn finish(ends: Ends, outcome: Result<u64, Error>) -> (op: CopyFile)
        ensures
            op@ == CopyFileView::finish(ends@, outcome),
    {
        let Ends { reader, writer, .. } = ends;
        CopyFile {
            stage: CopyStage::ClosingWriter {
                reader_fd: reader.into_fd().into_raw(),
                writer_fd: writer.into_fd().into_raw(),
                outcome,
            },
        }
    }

    /// The call to make next.
    pub fn request(&self) -> (call: Request)
        ensures
            call@ == self@.request(),
            self@.wf(),
    {
        proof {
            use_type_invariant(self);
        }
        match &self.stage {
            CopyStage::Probing { from_c, .. } => Syscall::Stat64 {
                path: from_c.duplicate(),
            },
            CopyStage::OpeningSource { op, .. } => op.request(),
            CopyStage::OpeningTarget { op, .. } => op.request(),
            CopyStage::Inspecting { reader, .. } => reader.file_attr(),
            CopyStage::Reading { ends, .. } => ends.reader.read(COPY_BUF_SIZE),
            CopyStage::Writing { ends, chunk, offset, .. } => ends.writer.write(
                vstd::slice::slice_subrange(chunk.as_slice(), *offset, chunk.len()),
            ),
            CopyStage::SettingPerm { ends, .. } => Syscall::Chmod {
                path: ends.to_c.duplicate(),
                mode: ends.perm.mode() as u16,
            },
            CopyStage::ClosingWriter { writer_fd, .. } => Syscall::Close { fd: *writer_fd },
            CopyStage::ClosingReader { reader_fd, .. } => Syscall::Close { fd: *reader_fd },
        }
    }

    /// The bytes that go with the call to make next: those that a write hands
    /// to the kernel, none with any other call.
    pub fn payload(&self) -> (bytes: &[u8])
        ensures
            bytes@ == self@.payload(),
    {
        proof {
            use_type_invariant(self);
        }
        match &self.stage {
            CopyStage::Writing { chunk, offset, .. } => vstd::slice::slice_subrange(
                chunk.as_slice(),
                *offset,
                chunk.len(),
            ),
            _ => &[],
        }
    }

    /// Takes the kernel's answer to the call that `request` named: the raw
    /// return value, the buffer that a read wrote to, and the record that a
    /// request for metadata wrote.
    pub fn resume(self, ret: isize, data: &[u8], stat: &Stat64) -> (p: Progress<
        CopyFile,
        Result<u64, Error>,
    >)
        requires
            self@.admits(ret, data@),
        ensures
            copy_progress_view(p) == self@.resume(ret, data@, *stat),
    {
        proof {
            use_type_invariant(&self);
        }
        match self.stage {
            CopyStage::Probing { from, to, .. } => {
                let found = crate::fs::attr_result(ret, *stat);
                let regular = match found {
                    Ok(attr) => attr.file_type().is_file(),
                    Err(_) => false,
                };
                if regular {
                    let mut oo = OpenOptions::new();
                    oo.read(true);
                    match File::open(from.as_slice(), &oo) {
                        Ok(op) => Progress::More(
                            CopyFile { stage: CopyStage::OpeningSource { op, to } },
                        ),
                        Err(e) => Progress::Done(Err(e)),
                    }
                } else {
                    Progress::Done(
                        Err(
                            Error::new(
                                ErrorKind::InvalidInput,
                                "the source path is not an existing regular file",
                            ),
                        ),
                    )
                }
            },
            CopyStage::OpeningSource { op, to } => match op.resume(ret) {
                Progress::More(op) => Progress::More(
                    CopyFile { stage: CopyStage::OpeningSource { op, to } },
                ),
                Progress::Done(Err(e)) => Progress::Done(Err(e)),
                Progress::Done(Ok(reader)) => {
                    let mut oo = OpenOptions::new();
                    oo.write(true);
                    oo.create(true);
                    oo.truncate(true);
                    let opened = match cstr(to.as_slice()) {
                        Ok(to_c) => {
                            let path = to_c.duplicate();
                            match File::open_c(path, &oo) {
                                Ok(op) => Ok((op, to_c)),
                                Err(e) => Err(e),
                            }
                        },
                        Err(e) => Err(e),
                    };
                    match opened {
                        Ok((op, to_c)) => Progress::More(
                            CopyFile { stage: CopyStage::OpeningTarget { reader, op, to_c } },
                        ),
                        Err(e) => Progress::More(
                            CopyFile {
                                stage: CopyStage::ClosingReader {
                                    reader_fd: reader.into_fd().into_raw(),
                                    outcome: Err(e),
                                },
                            },
                        ),
                    }
                },
            },
            CopyStage::OpeningTarget { reader, op, to_c } => match op.resume(ret) {
                Progress::More(op) => Progress::More(
                    CopyFile { stage: CopyStage::OpeningTarget { reader, op, to_c } },
                ),
                Progress::Done(Err(e)) => Progress::More(
                    CopyFile {
                        stage: CopyStage::ClosingReader {
                            reader_fd: reader.into_fd().into_raw(),
                            outcome: Err(e),
                        },
                    },
                ),
                Progress::Done(Ok(writer)) => Progress::More(
                    CopyFile { stage: CopyStage::Inspecting { reader, writer, to_c } },
                ),
            },
            CopyStage::Inspecting { reader, writer, to_c } => match crate::fs::attr_result(
                ret,
                *stat,
            ) {
                Err(e) => Progress::More(
                    CopyFile {
                        stage: CopyStage::ClosingWriter {
                            reader_fd: reader.into_fd().into_raw(),
                            writer_fd: writer.into_fd().into_raw(),
                            outcome: Err(e),
                        },
                    },
                ),
                Ok(attr) => Progress::More(
                    CopyFile {
                        stage: CopyStage::Reading {
                            ends: Ends { reader, writer, to_c, perm: attr.perm() },
                            written: 0,
                        },
                    },
                ),
            },
            CopyStage::Reading { ends, written } => match cvt(ret) {
                Err(e) => {
                    if matches!(e.kind(), ErrorKind::Interrupted) {
                        Progress::More(CopyFile { stage: CopyStage::Reading { ends, written } })
                    } else {
                        Progress::More(CopyFile::finish(ends, Err(e)))
                    }
                },
                Ok(n) => {
                    if n == 0 {
                        Progress::More(CopyFile { stage: CopyStage::SettingPerm { ends, written } })
                    } else {
                        let chunk = vstd::slice::slice_to_vec(
                            vstd::slice::slice_subrange(data, 0, n),
                        );
                        assert(chunk@.skip(0) == data@.take(n as int));
                        Progress::More(
                            CopyFile {
                                stage: CopyStage::Writing { ends, written, chunk, offset: 0 },
                            },
                        )
                    }
                },
            },
            CopyStage::Writing { ends, written, chunk, offset } => match cvt(ret) {
                Err(e) => {
                    if matches!(e.kind(), ErrorKind::Interrupted) {
                        Progress::More(
                            CopyFile { stage: CopyStage::Writing { ends, written, chunk, offset } },
                        )
                    } else {
                        Progress::More(CopyFile::finish(ends, Err(e)))
                    }
                },
                Ok(n) => {
                    if n == 0 {
                        Progress::More(
                            CopyFile::finish(
                                ends,
                                Err(
                                    Error::new(
                                        ErrorKind::WriteZero,
                                        "failed to write whole buffer",
                                    ),
                                ),
                            ),
                        )
                    } else if n == chunk.len() - offset {
                        Progress::More(
                            CopyFile {
                                stage: CopyStage::Reading { ends, written: count(written, n) },
                            },
                        )
                    } else {
                        assert(chunk@.skip(offset as int).skip(n as int) == chunk@.skip(
                            offset + n,
                        ));
                        Progress::More(
                            CopyFile {
                                stage: CopyStage::Writing {
                                    ends,
                                    written: count(written, n),
                                    chunk,
                                    offset: offset + n,
                                },
                            },
                        )
                    }
                },
            },
            CopyStage::SettingPerm { ends, written } => match cvt_r(ret) {
                None => Progress::More(
                    CopyFile { stage: CopyStage::SettingPerm { ends, written } },
                ),
                Some(Err(e)) => Progress::More(CopyFile::finish(ends, Err(e))),
                Some(Ok(_)) => Progress::More(CopyFile::finish(ends, Ok(written))),
            },
            CopyStage::ClosingWriter { reader_fd, outcome, .. } => Progress::More(
                CopyFile { stage: CopyStage::ClosingReader { reader_fd, outcome } },
            ),
            CopyStage::ClosingReader { outcome, .. } => Progress::Done(outcome),
        }
    }
}

/// One answer of the kernel: the raw return value, the buffer that a read
/// wrote to, and the record that a request for metadata wrote.
pub struct Answer {
    pub ret: isize,
    pub data: Seq<u8>,
    pub stat: Stat64,
}

/// How a copy went: where it stands, the bytes that the source gave, and the
/// bytes that the target took.
pub struct CopyRun {
    pub state: Progress<CopyFileView, Result<u64, Error>>,
    pub source: Seq<u8>,
    pub target: Seq<u8>,
}

impl CopyFileView {
    /// The bytes that were read from the source and that the target has not
    /// taken yet.
    pub open spec fn in_flight(self) -> Seq<u8> {
        match self {
            CopyFileView::Writing { pending, .. } => pending,
            _ => Seq::empty(),
        }
    }

    /// The number of bytes that the target has taken.
    pub open spec fn written(self) -> u64 {
        match self {
            CopyFileView::Reading { written, .. } => written,
            CopyFileView::Writing { written, .. } => written,
            CopyFileView::SettingPerm { written, .. } => written,
            CopyFileView::ClosingWriter { outcome: Ok(written), .. } => written,
            CopyFileView::ClosingReader { outcome: Ok(written), .. } => written,
            _ => 0,
        }
    }

    /// Whether the copy has failed and only releases its descriptors.
    pub open spec fn failed(self) -> bool {
        match self {
            CopyFileView::ClosingWriter { outcome, .. } => outcome is Err,
            CopyFileView::ClosingReader { outcome, .. } => outcome is Err,
            _ => false,
        }
    }

    /// The bytes that the source gives with the answer `a`: those of a read
    /// that succeeded.
    pub open spec fn taken(self, a: Answer) -> Seq<u8> {
        match (self, cvt_spec(a.ret)) {
            (CopyFileView::Reading { .. }, Ok(n)) => a.data.take(n as int),
            _ => Seq::empty(),
        }
    }

    /// The bytes that the target takes with the answer `a`: as many of those
    /// handed to it as a write that succeeded says.
    pub open spec fn given(self, a: Answer) -> Seq<u8> {
        match (self, cvt_spec(a.ret)) {
            (CopyFileView::Writing { pending, .. }, Ok(n)) => pending.take(n as int),
            _ => Seq::empty(),
        }
    }

    /// Whether `answers` can be the kernel's answers to the calls of the
    /// copy, one after the other.
    pub open spec fn admits_all(self, answers: Seq<Answer>) -> bool
        decreases answers.len(),
    {
        if answers.len() == 0 {
            true
        } else {
            &&& self.admits(answers[0].ret, answers[0].data)
            &&& match self.resume(answers[0].ret, answers[0].data, answers[0].stat) {
                Progress::More(next) => next.admits_all(answers.drop_first()),
                Progress::Done(_) => answers.len() == 1,
            }
        }
    }

    /// How the copy goes when the kernel gives the answers `answers`, one
    /// after the other.
    pub open spec fn run(self, answers: Seq<Answer>) -> CopyRun
        decreases answers.len(),
    {
        if answers.len() == 0 {
            CopyRun { state: Progress::More(self), source: Seq::empty(), target: Seq::empty() }
        } else {
            let a = answers[0];
            match self.resume(a.ret, a.data, a.stat) {
                Progress::Done(r) => CopyRun {
                    state: Progress::Done(r),
                    source: self.taken(a),
                    target: self.given(a),
                },
                Progress::More(next) => {
                    let rest = next.run(answers.drop_first());
                    CopyRun {
                        state: rest.state,
                        source: self.taken(a) + rest.source,
                        target: self.given(a) + rest.target,
                    }
                },
            }
        }
    }
}

/// A copy stays well-formed whatever the kernel answers.
pub proof fn lemma_copy_wf(s: CopyFileView, a: Answer)
    requires
        s.wf(),
        s.admits(a.ret, a.data),
    ensures
        s.resume(a.ret, a.data, a.stat) matches Progress::More(next) ==> next.wf(),
{
}

/// Counting bytes in two steps or in one comes to the same.
pub proof fn lemma_counted_twice(written: u64, a: nat, b: nat)
    ensures
        counted(counted(written, a), b) == counted(written, a + b),
{
}

/// A copy that has failed ends with its failure, whatever the kernel
/// answers while the descriptors are released.
pub proof fn lemma_failed_copy_stays_failed(s: CopyFileView, answers: Seq<Answer>)
    requires
        s.failed(),
    ensures
        !(s.run(answers).state matches Progress::Done(Ok(_))),
    decreases answers.len(),
{
    if answers.len() > 0 {
        let a = answers[0];
        match s.resume(a.ret, a.data, a.stat) {
            Progress::More(next) => {
                lemma_failed_copy_stays_failed(next, answers.drop_first());
            },
            Progress::Done(_) => {},
        }
    }
}

/// A copy that ends well has handed the target exactly the bytes that the
/// source gave, in their order, whatever the sizes of the reads, however few
/// bytes the target took with each write, and however often a call was
/// interrupted; and the count that it reports is the number of those bytes.
/// Stated of a copy at any stage: the bytes that the target takes from here
/// on are those in flight followed by those that the source gives from here
/// on, and they add to the count.
pub proof fn lemma_copy_keeps_bytes(s: CopyFileView, answers: Seq<Answer>)
    requires
        s.wf(),
        s.admits_all(answers),
    ensures
        s.run(answers).state matches Progress::Done(Ok(total)) ==> {
            &&& s.run(answers).target == s.in_flight() + s.run(answers).source
            &&& total == counted(s.written(), s.run(answers).target.len())
        },
    decreases answers.len(),
{
    if answers.len() > 0 {
        let a = answers[0];
        let rest = answers.drop_first();
        lemma_copy_wf(s, a);
        match s.resume(a.ret, a.data, a.stat) {
            Progress::Done(_) => {},
            Progress::More(next) => {
                let run = s.run(answers);
                let tail = next.run(rest);
                if run.state matches Progress::Done(Ok(total)) {
                    lemma_copy_keeps_bytes(next, rest);
                    if next.failed() {
                        lemma_failed_copy_stays_failed(next, rest);
                    }
                    // One step loses no byte and doubles none: what was in
                    // flight and what the source gives is what the target
                    // takes and what stays in flight.
                    assert(s.in_flight() + s.taken(a) == s.given(a) + next.in_flight()) by {
                        if let CopyFileView::Writing { pending, .. } = s {
                            if let Ok(n) = cvt_spec(a.ret) {
                                assert(pending == pending.take(n as int) + pending.skip(n as int));
                            }
                        }
                    }
                    assert(run.target == s.in_flight() + run.source) by {
                        assert(s.given(a) + (next.in_flight() + tail.source) == (s.given(a)
                            + next.in_flight()) + tail.source);
                        assert((s.in_flight() + s.taken(a)) + tail.source == s.in_flight() + (
                        s.taken(a) + tail.source));
                    }
                    lemma_counted_twice(s.written(), s.given(a).len(), tail.target.len());
                }
            },
        }
    }
}

/// A copy from its start: if it ends well, the target has taken exactly the
/// bytes that the source gave, and the copy reports their number.
pub proof fn lemma_copy_content(from: Seq<u8>, to: Seq<u8>, answers: Seq<Answer>)
    requires
        copy_spec(from, to) matches Ok(s) && s.admits_all(answers),
    ensures
        copy_spec(from, to)->Ok_0.run(answers).state matches Progress::Done(Ok(total)) ==> {
            let run = copy_spec(from, to)->Ok_0.run(answers);
            &&& run.target == run.source
            &&& total == counted(0, run.source.len())
        },
{
    let s = copy_spec(from, to)->Ok_0;
    lemma_copy_keeps_bytes(s, answers);
}

/// A source that is not there, or is no regular file, ends the copy at once
/// with the failure of an invalid input: nothing is opened, and the target is
/// not touched.
pub proof fn lemma_copy_refuses_irregular_source(from: Seq<u8>, to: Seq<u8>, a: Answer)
    requires
        !has_nul(from),
        cvt_spec(a.ret) is Err || !mode_has_format(a.stat.st_mode, S_IFREG),
    ensures
        (CopyFileView::Probing { from, to }).resume(a.ret, a.data, a.stat) == Progress::<
            CopyFileView,
            Result<u64, Error>,
        >::Done(Err(not_regular_error())),
        not_regular_error().spec_kind() == ErrorKind::InvalidInput,
{
}

/// The target is given the permission bits that the source was found to
/// have, and a copy with both files open releases both, the target first,
/// before it ends with its outcome.
pub proof fn lemma_copy_permissions_and_release(
    reader: i32,
    writer: i32,
    to_c: Seq<u8>,
    a: Answer,
    written: u64,
    outcome: Result<u64, Error>,
    b: Answer,
    c: Answer,
)
    requires
        cvt_spec(a.ret) is Ok,
    ensures
        (CopyFileView::Inspecting { reader, writer, to_c }).resume(a.ret, a.data, a.stat)
            matches Progress::More(CopyFileView::Reading { ends, written: w }) && w == 0
            && ends.perm == a.stat.st_mode & PERMISSION_BITS && (CopyFileView::SettingPerm {
            ends,
            written,
        }).request() == (Syscall::<Seq<u8>>::Chmod { path: to_c, mode: ends.perm as u16 }) && {
            let closing = CopyFileView::finish(ends, outcome);
            &&& closing.request() == (Syscall::<Seq<u8>>::Close { fd: writer })
            &&& closing.resume(b.ret, b.data, b.stat) matches Progress::More(last)
            &&& last.request() == (Syscall::<Seq<u8>>::Close { fd: reader })
            &&& last.resume(c.ret, c.data, c.stat) == Progress::<
                CopyFileView,
                Result<u64, Error>,
            >::Done(outcome)
        },
{
}

} // verus!
