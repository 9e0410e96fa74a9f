//! An owned file descriptor.
//!
//! A `FileDesc` cannot be copied. The one way to let go of it is `close`,
//! which consumes it, so the close request of a descriptor is built at most
//! once.

use vstd::prelude::*;
use crate::linux::{FD_CLOEXEC, F_SETFD};
use crate::error::Error;
use crate::syscall::{cvt_spec, Progress, Request, RequestView, Syscall};

verus! {

/// A descriptor that the kernel issued, owned by this value.
#[derive(Debug, PartialEq, Eq)]
pub struct FileDesc {
    fd: i32,
}

impl View for FileDesc {
    type V = i32;

    closed spec fn view(&self) -> i32 {
        self.fd
    }
}

impl FileDesc {
    /// Takes ownership of the descriptor `fd`.
    pub fn new(fd: i32) -> (desc: FileDesc)
        ensures
            desc@ == fd,
    {
        FileDesc { fd }
    }

    /// The descriptor.
    pub fn raw(&self) -> (fd: i32)
        ensures
            fd == self@,
    {
        self.fd
    }

    /// Gives the descriptor up without closing it.
    pub fn into_raw(self) -> (fd: i32)
        ensures
            fd == self@,
    {
        self.fd
    }

    /// The request that reads up to `count` bytes at the descriptor's
    /// position.
    pub fn read(&self, count: usize) -> (call: Request)
        ensures
            call@ == (Syscall::<Seq<u8>>::Read { fd: self@, count }),
    {
        Syscall::Read { fd: self.fd, count }
    }

    /// The request that writes the bytes of `buf` at the descriptor's
    /// position.
    pub fn write(&self, buf: &[u8]) -> (call: Request)
        ensures
            call@ == (Syscall::<Seq<u8>>::Write { fd: self@, count: buf@.len() as usize }),
    {
        Syscall::Write { fd: self.fd, count: buf.len() }
    }

    /// The request that reads up to `count` bytes at `offset`, leaving the
    /// descriptor's position alone.
    pub fn read_at(&self, count: usize, offset: u64) -> (call: Request)
        ensures
            call@ == (Syscall::<Seq<u8>>::Pread64 { fd: self@, count, offset: offset as i64 }),
    {
        Syscall::Pread64 { fd: self.fd, count, offset: offset as i64 }
    }

    /// The request that writes the bytes of `buf` at `offset`, leaving the
    /// descriptor's position alone.
    pub fn write_at(&self, buf: &[u8], offset: u64) -> (call: Request)
        ensures
            call@ == (Syscall::<Seq<u8>>::Pwrite64 {
                fd: self@,
                count: buf@.len() as usize,
                offset: offset as i64,
            }),
    {
        Syscall::Pwrite64 { fd: self.fd, count: buf.len(), offset: offset as i64 }
    }

    /// The request for a second, independent descriptor of the same open file.
    pub fn duplicate(&self) -> (call: Request)
        ensures
            call@ == (Syscall::<Seq<u8>>::Dup { fd: self@ }),
    {
        Syscall::Dup { fd: self.fd }
    }

    /// The request that makes the kernel close the descriptor when the
    /// process image is replaced.
    pub fn set_cloexec(&self) -> (call: Request)
        ensures
            call@ == (Syscall::<Seq<u8>>::Fcntl { fd: self@, cmd: F_SETFD, arg: FD_CLOEXEC }),
    {
        Syscall::Fcntl { fd: self.fd, cmd: F_SETFD, arg: FD_CLOEXEC }
    }

    /// Lets go of the descriptor: the request that releases it.
    pub fn close(self) -> (call: Request)
        ensures
            call@ == (Syscall::<Seq<u8>>::Close { fd: self@ }),
    {
        Syscall::Close { fd: self.fd }
    }
}

/// The size of the first window that reading to the end opens, halved.
pub const READ_WINDOW_START: usize = 16;

/// The size up to which the window of reading to the end doubles.
pub const READ_WINDOW_MAX: usize = 8192;

/// Reading a descriptor to its end, as contracts speak of it.
pub struct ReadToEndView {
    /// The descriptor that is read.
    pub fd: i32,
    /// The buffer: what it held at the start, and behind that all that has
    /// been read.
    pub buf: Seq<u8>,
    /// The number of bytes that the buffer held at the start.
    pub start_len: nat,
    /// The number of bytes that the window at hand still has room for.
    pub room: nat,
    /// The size of the window at hand.
    pub window: nat,
}

impl ReadToEndView {
    /// What holds of every read in progress.
    pub open spec fn wf(self) -> bool {
        &&& self.start_len <= self.buf.len()
        &&& self.room <= self.window
        &&& READ_WINDOW_START <= self.window < 2 * READ_WINDOW_MAX
    }

    /// The state with room to read into: where the window at hand is full, a
    /// new one is opened, twice as large as the last until the largest size
    /// is reached.
    pub open spec fn grown(self) -> ReadToEndView {
        if self.room == 0 {
            let window = if self.window < READ_WINDOW_MAX {
                2 * self.window
            } else {
                self.window
            };
            ReadToEndView { room: window, window, ..self }
        } else {
            self
        }
    }

    /// The call to make next: a read of as many bytes as there is room for.
    pub open spec fn request(self) -> RequestView {
        Syscall::Read { fd: self.fd, count: self.grown().room as usize }
    }

    /// How the read goes on when the kernel answers with the raw return
    /// value `ret`, having written to `data`. A read of no bytes is the end of
    /// the stream: the operation ends with the number of bytes added to the
    /// buffer. The bytes of any other read are added to the buffer. An
    /// interrupted read is made again; any other failure ends the operation.
    /// The buffer is handed back in every case, with all that was read.
    pub open spec fn resume(self, ret: isize, data: Seq<u8>) -> Progress<
        ReadToEndView,
        (Seq<u8>, Result<usize, Error>),
    > {
        let g = self.grown();
        match cvt_spec(ret) {
            Ok(n) => if n == 0 {
                Progress::Done((g.buf, Ok((g.buf.len() - g.start_len) as usize)))
            } else {
                Progress::More(
                    ReadToEndView {
                        buf: g.buf + data.take(n as int),
                        room: (g.room - n) as nat,
                        ..g
                    },
                )
            },
            Err(e) => if e.is_interrupted() {
                Progress::More(g)
            } else {
                Progress::Done((g.buf, Err(e)))
            },
        }
    }

    /// Whether the kernel's answer is one that the call at hand can get: a
    /// read gives no more bytes than it was asked for, and `data` holds them.
    pub open spec fn admits(self, ret: isize, data: Seq<u8>) -> bool {
        cvt_spec(ret) matches Ok(n) ==> n <= self.grown().room && n <= data.len()
    }

    /// The state after the kernel has answered one read after the other with
    /// the chunks of bytes `chunks`.
    pub open spec fn after_reads(self, chunks: Seq<Seq<u8>>) -> ReadToEndView
        decreases chunks.len(),
    {
        if chunks.len() == 0 {
            self
        } else {
            match self.resume(chunks[0].len() as isize, chunks[0]) {
                Progress::More(next) => next.after_reads(chunks.drop_first()),
                Progress::Done(_) => self,
            }
        }
    }

    /// Whether `chunks` can be the kernel's answers to one read after the
    /// other: none is empty, and none is larger than the read asked for.
    pub open spec fn reads_fit(self, chunks: Seq<Seq<u8>>) -> bool
        decreases chunks.len(),
    {
        if chunks.len() == 0 {
            true
        } else {
            &&& 0 < chunks[0].len() <= self.grown().room
            &&& match self.resume(chunks[0].len() as isize, chunks[0]) {
                Progress::More(next) => next.reads_fit(chunks.drop_first()),
                Progress::Done(_) => false,
            }
        }
    }
}

/// All the bytes of `chunks`, one chunk after the other.
pub open spec fn concat(chunks: Seq<Seq<u8>>) -> Seq<u8>
    decreases chunks.len(),
{
    if chunks.len() == 0 {
        Seq::empty()
    } else {
        chunks[0] + concat(chunks.drop_first())
    }
}

/// A read in progress stays well-formed whatever the kernel answers.
pub proof fn lemma_read_to_end_wf(s: ReadToEndView, ret: isize, data: Seq<u8>)
    requires
        s.wf(),
        s.admits(ret, data),
    ensures
        s.grown().wf(),
        s.resume(ret, data) matches Progress::More(next) ==> next.wf(),
{
}

/// A descriptor that gives its bytes over several short reads: the buffer
/// ends up with exactly those reads behind what it held before, in their
/// order, and the first read of no bytes ends the operation with their total
/// length.
pub proof fn lemma_read_to_end_concatenates(s: ReadToEndView, chunks: Seq<Seq<u8>>, data: Seq<u8>)
    requires
        s.wf(),
        s.reads_fit(chunks),
    ensures
        s.after_reads(chunks).wf(),
        s.after_reads(chunks).buf == s.buf + concat(chunks),
        s.after_reads(chunks).start_len == s.start_len,
        s.after_reads(chunks).fd == s.fd,
        s.after_reads(chunks).resume(0, data) == Progress::<
            ReadToEndView,
            (Seq<u8>, Result<usize, Error>),
        >::Done(
            (
                s.buf + concat(chunks),
                Ok((s.buf.len() - s.start_len + concat(chunks).len()) as usize),
            ),
        ),
    decreases chunks.len(),
{
    if chunks.len() == 0 {
        assert(s.buf + concat(chunks) == s.buf);
    } else {
        let first = chunks[0];
        let rest = chunks.drop_first();
        let next = s.resume(first.len() as isize, first)->More_0;
        assert(next.buf == s.buf + first) by {
            assert(first.take(first.len() as int) == first);
        }
        lemma_read_to_end_concatenates(next, rest, data);
        assert(s.buf + concat(chunks) == (s.buf + first) + concat(rest));
    }
}

/// A descriptor that is being read to its end.
pub struct ReadToEnd {
    fd: i32,
    buf: Vec<u8>,
    start_len: usize,
    room: usize,
    window: usize,
}

impl View for ReadToEnd {
    type V = ReadToEndView;

    closed spec fn view(&self) -> ReadToEndView {
        ReadToEndView {
            fd: self.fd,
            buf: self.buf@,
            start_len: self.start_len as nat,
            room: self.room as nat,
            window: self.window as nat,
        }
    }
}

/// Where reading to the end stands, as contracts speak of it.
pub open spec fn read_to_end_view(p: Progress<ReadToEnd, (Vec<u8>, Result<usize, Error>)>)
    -> Progress<ReadToEndView, (Seq<u8>, Result<usize, Error>)> {
    match p {
        Progress::More(op) => Progress::More(op@),
        Progress::Done((buf, r)) => Progress::Done((buf@, r)),
    }
}

impl ReadToEnd {
    #[verifier::type_invariant]
    spec fn inv(&self) -> bool {
        self@.wf()
    }

    /// The size of the window that has room: that at hand, or the next.
    fn grown_window(&self) -> (w: (usize, usize))
        ensures
            w.0 == self@.grown().room,
            w.1 == self@.grown().window,
            self@.grown().wf(),
    {
        proof {
            use_type_invariant(self);
        }
        if self.room == 0 {
            let window: usize = if self.window < READ_WINDOW_MAX {
                2 * self.window
            } else {
                self.window
            };
            (window, window)
        } else {
            (self.room, self.window)
        }
    }

    /// The call to make next.
    pub fn request(&self) -> (call: Request)
        ensures
            call@ == self@.request(),
            self@.wf(),
    {
        proof {
            use_type_invariant(self);
        }
        let (room, _) = self.grown_window();
        Syscall::Read { fd: self.fd, count: room }
    }

    /// Takes the kernel's answer to the call that `request` named: the raw
    /// return value and the buffer that the kernel wrote to.
    pub fn resume(self, ret: isize, data: &[u8]) -> (p: Progress<
        ReadToEnd,
        (Vec<u8>, Result<usize, Error>),
    >)
        requires
            self@.admits(ret, data@),
        ensures
            read_to_end_view(p) == self@.resume(ret, data@),
    {
        proof {
            use_type_invariant(&self);
        }
        let (room, window) = self.grown_window();
        let ReadToEnd { fd, buf, start_len, .. } = self;
        let mut buf = buf;
        match crate::syscall::cvt(ret) {
            Ok(n) => {
                if n == 0 {
                    let count: usize = buf.len() - start_len;
                    Progress::Done((buf, Ok(count)))
                } else {
                    crate::path::push_bytes(&mut buf, vstd::slice::slice_subrange(data, 0, n));
                    Progress::More(ReadToEnd { fd, buf, start_len, room: room - n, window })
                }
            },
            Err(e) => {
                if matches!(e.kind(), crate::error::ErrorKind::Interrupted) {
                    Progress::More(ReadToEnd { fd, buf, start_len, room, window })
                } else {
                    Progress::Done((buf, Err(e)))
                }
            },
        }
    }
}

impl FileDesc {
    /// Starts to read the descriptor to its end. What is read is added to
    /// `buf`, which the operation hands back when it ends.
    pub fn read_to_end(&self, buf: Vec<u8>) -> (op: ReadToEnd)
        ensures
            op@ == (ReadToEndView {
                fd: self@,
                buf: buf@,
                start_len: buf@.len(),
                room: 0,
                window: READ_WINDOW_START as nat,
            }),
            op@.wf(),
    {
        let start_len: usize = buf.len();
        ReadToEnd { fd: self.fd, buf, start_len, room: 0, window: READ_WINDOW_START }
    }
}

} // verus!
