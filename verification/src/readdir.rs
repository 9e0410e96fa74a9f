//! Reading a directory: the stream that walks the kernel's batches of
//! directory entry records, and the entries it yields.

use vstd::prelude::*;
use crate::attr::{mode_has_format, FileType};
use crate::dirent::{parse_record, record_header, record_len, record_name, record_ok, Dirent64};
use crate::error::{Error, ErrorKind};
use crate::fd::FileDesc;
use crate::linux::{
    DT_BLK, DT_CHR, DT_DIR, DT_FIFO, DT_LNK, DT_REG, DT_SOCK, S_IFBLK, S_IFCHR, S_IFDIR, S_IFIFO,
    S_IFLNK, S_IFREG, S_IFSOCK,
};
use crate::path::{join, join_spec};
use crate::syscall::{cvt, cvt_spec, request_view, Request, RequestView, Syscall};

verus! {

/// The number of bytes asked of the kernel for one batch of entries.
pub const DIR_BUF_CAPACITY: usize = 32768;

/// One entry of a directory.
#[derive(Debug, PartialEq, Eq)]
pub struct DirEntry {
    entry: Dirent64,
    name: Vec<u8>,
    root: Vec<u8>,
}

/// A directory entry as contracts speak of it: the header of its record, its
/// name, and the name of the directory it was found in.
pub struct DirEntryView {
    pub entry: Dirent64,
    pub name: Seq<u8>,
    pub root: Seq<u8>,
}

impl View for DirEntry {
    type V = DirEntryView;

    closed spec fn view(&self) -> DirEntryView {
        DirEntryView { entry: self.entry, name: self.name@, root: self.root@ }
    }
}

/// The file mode that stands for a directory entry type tag, for the tags
/// that name a kind of file.
pub open spec fn format_of_tag(d_type: u8) -> Option<u32> {
    if d_type == DT_CHR {
        Some(S_IFCHR)
    } else if d_type == DT_FIFO {
        Some(S_IFIFO)
    } else if d_type == DT_LNK {
        Some(S_IFLNK)
    } else if d_type == DT_REG {
        Some(S_IFREG)
    } else if d_type == DT_SOCK {
        Some(S_IFSOCK)
    } else if d_type == DT_DIR {
        Some(S_IFDIR)
    } else if d_type == DT_BLK {
        Some(S_IFBLK)
    } else {
        None
    }
}

/// The mode that stands for a tag is a bare format: a kind made of it answers
/// to that format, so the entries tagged as directories, regular files and
/// symbolic links are the ones that are taken for such, and no others.
pub proof fn lemma_tag_formats(d_type: u8)
    ensures
        format_of_tag(d_type) matches Some(mode) ==> {
            &&& mode_has_format(mode, mode)
            &&& mode_has_format(mode, S_IFDIR) <==> d_type == DT_DIR
            &&& mode_has_format(mode, S_IFREG) <==> d_type == DT_REG
            &&& mode_has_format(mode, S_IFLNK) <==> d_type == DT_LNK
        },
{
    assert(0o010000u32 & 0o170000u32 == 0o010000u32) by (bit_vector);
    assert(0o020000u32 & 0o170000u32 == 0o020000u32) by (bit_vector);
    assert(0o040000u32 & 0o170000u32 == 0o040000u32) by (bit_vector);
    assert(0o060000u32 & 0o170000u32 == 0o060000u32) by (bit_vector);
    assert(0o100000u32 & 0o170000u32 == 0o100000u32) by (bit_vector);
    assert(0o120000u32 & 0o170000u32 == 0o120000u32) by (bit_vector);
    assert(0o140000u32 & 0o170000u32 == 0o140000u32) by (bit_vector);
}

/// The entry that the record at the start of `rec` describes, if `rec` starts
/// with a whole record.
pub open spec fn entry_of_record(rec: Seq<u8>, root: Seq<u8>) -> Option<DirEntryView> {
    if record_ok(rec) {
        Some(DirEntryView { entry: record_header(rec), name: record_name(rec), root })
    } else {
        None
    }
}

impl DirEntry {
    /// The entry that the record at the start of `record` describes, found in
    /// the directory `root`. `None` when `record` does not start with a whole
    /// record.
    pub fn from_raw(record: &[u8], root: Vec<u8>) -> (r: Option<DirEntry>)
        ensures
            match r {
                Some(e) => entry_of_record(record@, root@) == Some(e@),
                None => entry_of_record(record@, root@) is None,
            },
    {
        match parse_record(record) {
            Some((entry, name)) => Some(DirEntry { entry, name, root }),
            None => None,
        }
    }

    /// The name of the entry, seen from where the directory was named.
    pub fn path(&self) -> (path: Vec<u8>)
        ensures
            path@ == join_spec(self@.root, self@.name),
    {
        join(self.root.as_slice(), self.name.as_slice())
    }

    /// The name of the entry inside its directory.
    pub fn file_name(&self) -> (name: Vec<u8>)
        ensures
            name@ == self@.name,
    {
        vstd::slice::slice_to_vec(self.name.as_slice())
    }

    /// The request for the metadata of the entry, which the record does not
    /// carry: the entry's path is looked up without following a final link.
    pub fn metadata(&self) -> (r: Result<Request, Error>)
        ensures
            request_view(r) == crate::fs::lstat_spec(join_spec(self@.root, self@.name)),
    {
        let path = self.path();
        crate::fs::lstat(path.as_slice())
    }

    /// The kind of the entry, where the kernel's record names it. `None`
    /// where the record leaves it open: the kind then has to come from
    /// `metadata`.
    pub fn file_type(&self) -> (r: Option<FileType>)
        ensures
            match r {
                Some(t) => format_of_tag(self@.entry.d_type) == Some(t@),
                None => format_of_tag(self@.entry.d_type) is None,
            },
    {
        let tag: u8 = self.entry.d_type;
        if tag == DT_CHR {
            Some(FileType::from_mode(S_IFCHR))
        } else if tag == DT_FIFO {
            Some(FileType::from_mode(S_IFIFO))
        } else if tag == DT_LNK {
            Some(FileType::from_mode(S_IFLNK))
        } else if tag == DT_REG {
            Some(FileType::from_mode(S_IFREG))
        } else if tag == DT_SOCK {
            Some(FileType::from_mode(S_IFSOCK))
        } else if tag == DT_DIR {
            Some(FileType::from_mode(S_IFDIR))
        } else if tag == DT_BLK {
            Some(FileType::from_mode(S_IFBLK))
        } else {
            None
        }
    }

    /// The inode number of the entry.
    pub fn ino(&self) -> (ino: u64)
        ensures
            ino == self@.entry.d_ino,
    {
        self.entry.d_ino
    }
}

/// What a directory stream answers when asked for its next entry.
#[derive(Debug, PartialEq, Eq)]
pub enum Step<C, D> {
    /// The batch at hand is used up. The caller performs the call and hands
    /// the kernel's answer to `ReadDir::refill`.
    Fill(C),
    /// The next entry.
    Entry(D),
    /// A failure. The stream has ended with it.
    Fail(Error),
    /// The stream has ended.
    End,
}

impl View for Step<Request, DirEntry> {
    type V = Step<RequestView, DirEntryView>;

    open spec fn view(&self) -> Step<RequestView, DirEntryView> {
        match *self {
            Step::Fill(call) => Step::Fill(call@),
            Step::Entry(entry) => Step::Entry(entry@),
            Step::Fail(e) => Step::Fail(e),
            Step::End => Step::End,
        }
    }
}

/// A directory stream as contracts speak of it.
pub enum DirStream {
    /// The stream reads the directory open at `fd`, which was named `root`;
    /// `pending` are the bytes of the batch at hand that it has not walked.
    Open { fd: i32, root: Seq<u8>, pending: Seq<u8> },
    /// The stream has ended and yields nothing more. It still holds the
    /// descriptor `fd`, which has to be released.
    Ended { fd: i32 },
    /// The stream has ended and has handed out the release of its
    /// descriptor.
    Closed,
}

struct ReadDirInner {
    fd: FileDesc,
    root: Vec<u8>,
    buf: Vec<u8>,
    offset: usize,
}

enum Stream {
    Open(ReadDirInner),
    Ended(FileDesc),
    Closed,
}

/// A stream of the entries of one directory.
pub struct ReadDir(Stream);

impl View for ReadDir {
    type V = DirStream;

    closed spec fn view(&self) -> DirStream {
        match self.0 {
            Stream::Open(inner) => DirStream::Open {
                fd: inner.fd@,
                root: inner.root@,
                pending: if inner.offset <= inner.buf@.len() {
                    inner.buf@.skip(inner.offset as int)
                } else {
                    Seq::empty()
                },
            },
            Stream::Ended(fd) => DirStream::Ended { fd: fd@ },
            Stream::Closed => DirStream::Closed,
        }
    }
}

/// The failure that ends a stream whose batch does not hold a whole record
/// where one has to start.
pub open spec fn malformed_record_error() -> Error {
    Error::Custom { kind: ErrorKind::InvalidData, message: "malformed directory entry record" }
}

/// The request for the next batch of entries of the directory open at `fd`.
pub open spec fn fill_request(fd: i32) -> RequestView {
    Syscall::Getdents64 { fd, count: DIR_BUF_CAPACITY as u32 }
}

/// Walking one record of a batch of which `pending` is left: the stream
/// yields the entry of the record at the start of `pending` and moves on by
/// the length that the record declares. Where `pending` does not start with a
/// whole record, the stream fails and ends.
pub open spec fn take_record(fd: i32, root: Seq<u8>, pending: Seq<u8>) -> (
    DirStream,
    Step<RequestView, DirEntryView>,
) {
    match entry_of_record(pending, root) {
        Some(entry) => (
            DirStream::Open { fd, root, pending: pending.skip(record_len(pending)) },
            Step::Entry(entry),
        ),
        None => (DirStream::Ended { fd }, Step::Fail(malformed_record_error())),
    }
}

/// Asking a stream for its next entry: the state it is left in, and its
/// answer. A stream that has ended stays as it is. One whose batch is used up
/// asks for the next batch and does not change. Any other walks one record.
pub open spec fn next_spec(s: DirStream) -> (DirStream, Step<RequestView, DirEntryView>) {
    match s {
        DirStream::Open { fd, root, pending } => if pending.len() == 0 {
            (s, Step::Fill(fill_request(fd)))
        } else {
            take_record(fd, root, pending)
        },
        _ => (s, Step::End),
    }
}

/// Handing a stream the kernel's answer to its request for a batch: `ret` is
/// the raw return value and `data` the buffer that the kernel wrote to. A
/// failure is yielded and ends the stream; so does, silently, an empty
/// batch. Otherwise the first `ret` bytes of `data` are the batch at hand,
/// and the stream walks its first record.
pub open spec fn refill_spec(s: DirStream, ret: isize, data: Seq<u8>) -> (
    DirStream,
    Step<RequestView, DirEntryView>,
) {
    match s {
        DirStream::Open { fd, root, pending } => match cvt_spec(ret) {
            Err(e) => (DirStream::Ended { fd }, Step::Fail(e)),
            Ok(n) => if n == 0 {
                (DirStream::Ended { fd }, Step::End)
            } else {
                take_record(fd, root, data.take(n as int))
            },
        },
        _ => (s, Step::End),
    }
}

/// Letting go of a stream: the state it is left in, and the request that
/// releases its descriptor. The request is handed out once: a stream that
/// has handed it out has none to give.
pub open spec fn close_spec(s: DirStream) -> (DirStream, Option<RequestView>) {
    match s {
        DirStream::Open { fd, .. } => (DirStream::Closed, Some(Syscall::Close { fd })),
        DirStream::Ended { fd } => (DirStream::Closed, Some(Syscall::Close { fd })),
        DirStream::Closed => (DirStream::Closed, None),
    }
}

/// A request that may be none, as contracts speak of it.
pub open spec fn optional_request_view(r: Option<Request>) -> Option<RequestView> {
    match r {
        Some(call) => Some(call@),
        None => None,
    }
}

impl ReadDir {
    /// A stream over the directory that is open at `fd` and was named `root`.
    /// It has no batch at hand, so the first thing it does is to ask for one.
    pub fn new(fd: FileDesc, root: Vec<u8>) -> (stream: ReadDir)
        ensures
            stream@ == (DirStream::Open { fd: fd@, root: root@, pending: Seq::empty() }),
    {
        let buf: Vec<u8> = Vec::with_capacity(DIR_BUF_CAPACITY);
        assert(buf@.skip(0) == Seq::<u8>::empty());
        ReadDir(Stream::Open(ReadDirInner { fd: fd, root: root, buf: buf, offset: 0 }))
    }

    /// Whether the stream waits for a batch: it has not ended and has walked
    /// all of the batch at hand.
    pub open spec fn spec_needs_fill(&self) -> bool {
        self@ matches DirStream::Open { pending, .. } && pending.len() == 0
    }

    /// Whether the stream waits for a batch.
    #[verifier::when_used_as_spec(spec_needs_fill)]
    pub fn needs_fill(&self) -> (r: bool)
        ensures
            r == self.spec_needs_fill(),
    {
        match &self.0 {
            Stream::Open(inner) => inner.offset >= inner.buf.len(),
            _ => false,
        }
    }

    /// Whether the stream has ended.
    pub open spec fn spec_is_exhausted(&self) -> bool {
        !(self@ is Open)
    }

    /// Whether the stream has ended.
    #[verifier::when_used_as_spec(spec_is_exhausted)]
    pub fn is_exhausted(&self) -> (r: bool)
        ensures
            r == self.spec_is_exhausted(),
    {
        match &self.0 {
            Stream::Open(_) => false,
            _ => true,
        }
    }

    /// Walks the record at the cursor of `inner`.
    fn walk(mut inner: ReadDirInner) -> (r: (ReadDir, Step<Request, DirEntry>))
        requires
            inner.offset <= inner.buf@.len(),
        ensures
            (r.0@, r.1@) == take_record(
                inner.fd@,
                inner.root@,
                inner.buf@.skip(inner.offset as int),
            ),
    {
        let ghost pending = inner.buf@.skip(inner.offset as int);
        let rest = vstd::slice::slice_subrange(
            inner.buf.as_slice(),
            inner.offset,
            inner.buf.len(),
        );
        match parse_record(rest) {
            Some((entry, name)) => {
                let root = vstd::slice::slice_to_vec(inner.root.as_slice());
                inner.offset = inner.offset + entry.d_reclen as usize;
                assert(inner.buf@.skip(inner.offset as int) == pending.skip(record_len(pending)));
                (ReadDir(Stream::Open(inner)), Step::Entry(DirEntry { entry, name, root }))
            },
            None => (
                ReadDir(Stream::Ended(inner.fd)),
                Step::Fail(Error::new(ErrorKind::InvalidData, "malformed directory entry record")),
            ),
        }
    }

    /// Takes the state out of the stream, which is left closed.
    fn take(&mut self) -> (state: Stream)
        ensures
            ReadDir(state)@ == old(self)@,
            final(self)@ == DirStream::Closed,
    {
        let mut state = Stream::Closed;
        core::mem::swap(&mut self.0, &mut state);
        state
    }

    /// Asks the stream for its next entry.
    pub fn next(&mut self) -> (step: Step<Request, DirEntry>)
        ensures
            (final(self)@, step@) == next_spec(old(self)@),
    {
        match self.take() {
            Stream::Open(inner) => {
                if inner.offset >= inner.buf.len() {
                    let call = Syscall::Getdents64 {
                        fd: inner.fd.raw(),
                        count: DIR_BUF_CAPACITY as u32,
                    };
                    self.0 = Stream::Open(inner);
                    Step::Fill(call)
                } else {
                    let (stream, step) = ReadDir::walk(inner);
                    *self = stream;
                    step
                }
            },
            state => {
                self.0 = state;
                Step::End
            },
        }
    }

    /// Hands the stream the kernel's answer to the request that `next` made:
    /// the raw return value and the buffer that the kernel wrote to.
    pub fn refill(&mut self, ret: isize, data: &[u8]) -> (step: Step<Request, DirEntry>)
        requires
            old(self).spec_needs_fill(),
            cvt_spec(ret) matches Ok(n) ==> n <= DIR_BUF_CAPACITY && n <= data@.len(),
        ensures
            (final(self)@, step@) == refill_spec(old(self)@, ret, data@),
            !(step is Fill),
    {
        match self.take() {
            Stream::Open(mut inner) => {
                match cvt(ret) {
                    Err(e) => {
                        self.0 = Stream::Ended(inner.fd);
                        Step::Fail(e)
                    },
                    Ok(n) => {
                        if n == 0 {
                            self.0 = Stream::Ended(inner.fd);
                            Step::End
                        } else {
                            inner.offset = 0;
                            inner.buf = vstd::slice::slice_to_vec(
                                vstd::slice::slice_subrange(data, 0, n),
                            );
                            assert(inner.buf@.skip(0) == data@.take(n as int));
                            let (stream, step) = ReadDir::walk(inner);
                            *self = stream;
                            step
                        }
                    },
                }
            },
            state => {
                self.0 = state;
                Step::End
            },
        }
    }

    /// Lets go of the stream, which yields nothing from here on: the request
    /// that releases its descriptor, unless that was handed out before.
    pub fn close(&mut self) -> (call: Option<Request>)
        ensures
            (final(self)@, optional_request_view(call)) == close_spec(old(self)@),
    {
        match self.take() {
            Stream::Open(inner) => Some(inner.fd.close()),
            Stream::Ended(fd) => Some(fd.close()),
            Stream::Closed => None,
        }
    }
}

/// Whether `batch` is a run of whole records and nothing else.
pub open spec fn batch_ok(batch: Seq<u8>) -> bool
    decreases batch.len(),
{
    batch.len() == 0 || (record_ok(batch) && batch_ok(batch.skip(record_len(batch))))
}

/// The entries of the whole records that `batch` starts with, in their
/// order.
pub open spec fn batch_entries(batch: Seq<u8>, root: Seq<u8>) -> Seq<DirEntryView>
    decreases batch.len(),
{
    match entry_of_record(batch, root) {
        Some(entry) => seq![entry] + batch_entries(batch.skip(record_len(batch)), root),
        None => Seq::empty(),
    }
}

/// The state that a stream is left in, and its answer, when it is asked for
/// its next entry for the `i`-th time from the state `s` on, counted from 0.
pub open spec fn nth_next(s: DirStream, i: nat) -> (DirStream, Step<RequestView, DirEntryView>)
    decreases i,
{
    if i == 0 {
        next_spec(s)
    } else {
        nth_next(next_spec(s).0, (i - 1) as nat)
    }
}

/// A stream that has ended yields nothing, however often it is asked, and
/// stays as it is.
pub proof fn lemma_exhaustion_is_final(s: DirStream, i: nat)
    requires
        !(s is Open),
    ensures
        nth_next(s, i) == (s, Step::<RequestView, DirEntryView>::End),
    decreases i,
{
    if i > 0 {
        lemma_exhaustion_is_final(s, (i - 1) as nat);
    }
}

/// An empty batch ends a stream at once and for good, and so does a failure
/// of the kernel, which the stream yields once.
pub proof fn lemma_stream_ends(fd: i32, root: Seq<u8>, ret: isize, data: Seq<u8>, i: nat)
    requires
        cvt_spec(ret) is Err || cvt_spec(ret) == Ok::<usize, Error>(0),
    ensures
        ({
            let waiting = DirStream::Open { fd, root, pending: Seq::empty() };
            let (ended, answer) = refill_spec(waiting, ret, data);
            &&& ended == DirStream::Ended { fd }
            &&& answer == match cvt_spec(ret) {
                Err(e) => Step::<RequestView, DirEntryView>::Fail(e),
                Ok(_) => Step::<RequestView, DirEntryView>::End,
            }
            &&& nth_next(ended, i).1 == Step::<RequestView, DirEntryView>::End
        }),
{
    lemma_exhaustion_is_final(DirStream::Ended { fd }, i);
}

/// A batch that the kernel hands over is walked as the batch at hand is: the
/// stream answers with what it would have answered next, had it held the
/// batch already.
pub proof fn lemma_refill_walks_the_batch(fd: i32, root: Seq<u8>, ret: isize, data: Seq<u8>)
    requires
        cvt_spec(ret) matches Ok(n) && 0 < n <= data.len(),
    ensures
        refill_spec(DirStream::Open { fd, root, pending: Seq::empty() }, ret, data) == next_spec(
            DirStream::Open { fd, root, pending: data.take(cvt_spec(ret)->Ok_0 as int) },
        ),
{
}

/// A stream yields the entries of the batch at hand one by one, in the order
/// of their records, each exactly once, and then asks for the next batch.
pub proof fn lemma_stream_yields_batch(fd: i32, root: Seq<u8>, pending: Seq<u8>, i: nat)
    requires
        batch_ok(pending),
        i <= batch_entries(pending, root).len(),
    ensures
        nth_next(DirStream::Open { fd, root, pending }, i).1 == if i < batch_entries(
            pending,
            root,
        ).len() {
            Step::<RequestView, DirEntryView>::Entry(batch_entries(pending, root)[i as int])
        } else {
            Step::<RequestView, DirEntryView>::Fill(fill_request(fd))
        },
    decreases i,
{
    if pending.len() > 0 && i > 0 {
        // The first record is walked; the rest of the batch holds the rest
        // of the entries.
        let rest = pending.skip(record_len(pending));
        assert(batch_entries(pending, root) == seq![entry_of_record(pending, root)->Some_0]
            + batch_entries(rest, root));
        lemma_stream_yields_batch(fd, root, rest, (i - 1) as nat);
    }
}

/// The descriptor of a stream is released exactly once: whatever state the
/// stream is in, letting go of it hands out the release of the descriptor it
/// holds, and letting go of it again hands out nothing. Asking for entries
/// never releases the descriptor and never changes which one is held.
pub proof fn lemma_stream_releases_once(s: DirStream)
    ensures
        close_spec(s).1 is Some <==> !(s is Closed),
        close_spec(close_spec(s).0).1 is None,
        next_spec(close_spec(s).0).1 == Step::<RequestView, DirEntryView>::End,
        close_spec(next_spec(s).0).1 == close_spec(s).1,
{
}

} // verus!
