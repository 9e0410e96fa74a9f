//! Reading where a symbolic link leads.
//!
//! The kernel writes as much of the link's text as the buffer takes and says
//! how much it wrote, not how much there was. A buffer that came back full
//! may therefore hold a text that was cut short: the call is made again with
//! a buffer twice as large, until the text leaves room in the buffer.

use vstd::prelude::*;
use crate::cstring::{cstr, cstr_spec, CString};
use crate::errno::ENAMETOOLONG;
use crate::error::Error;
use crate::syscall::{cvt, cvt_spec, Progress, Request, RequestView, Syscall};

verus! {

/// The size of the first buffer.
pub const READLINK_FIRST_CAPACITY: usize = 256;

/// The largest size of a buffer that can still be doubled.
pub const READLINK_LAST_DOUBLING: usize = 0x3fff_ffff;

/// The largest size of a buffer that the kernel can be told of.
pub const READLINK_MAX_CAPACITY: usize = 0x7fff_ffff;

/// Reading a link, as contracts speak of it.
pub struct ReadLinkView {
    /// The NUL-terminated name of the link.
    pub path: Seq<u8>,
    /// The size of the buffer at hand.
    pub capacity: nat,
}

impl ReadLinkView {
    /// What holds of every reading in progress.
    pub open spec fn wf(self) -> bool {
        1 <= self.capacity <= READLINK_MAX_CAPACITY
    }

    /// The call to make next.
    pub open spec fn request(self) -> RequestView {
        Syscall::Readlink { path: self.path, bufsiz: self.capacity as i32 }
    }

    /// Whether the kernel's answer is one that the call at hand can get: the
    /// kernel wrote no more than the buffer takes, and `data` holds it.
    pub open spec fn admits(self, ret: isize, data: Seq<u8>) -> bool {
        cvt_spec(ret) matches Ok(n) ==> n <= self.capacity && n <= data.len()
    }

    /// How the reading goes on when the kernel answers with the raw return
    /// value `ret`, having written to `data`. A failure ends it. A text that
    /// left room in the buffer is the whole text and ends it. A text that
    /// filled the buffer is read again into a buffer twice as large; where no
    /// such buffer can be had, the name is reported as too long.
    pub open spec fn resume(self, ret: isize, data: Seq<u8>) -> Progress<
        ReadLinkView,
        Result<Seq<u8>, Error>,
    > {
        match cvt_spec(ret) {
            Err(e) => Progress::Done(Err(e)),
            Ok(n) => if n != self.capacity {
                Progress::Done(Ok(data.take(n as int)))
            } else if self.capacity <= READLINK_LAST_DOUBLING {
                Progress::More(ReadLinkView { capacity: 2 * self.capacity, ..self })
            } else {
                Progress::Done(Err(Error::Os { code: ENAMETOOLONG }))
            },
        }
    }
}

/// What the kernel answers to the request for the text of a link whose text
/// is `text`, into a buffer of `bufsiz` bytes: it writes the text, or as much
/// of its start as the buffer takes, and returns the number of bytes written.
pub open spec fn readlink_answer(text: Seq<u8>, bufsiz: nat) -> (isize, Seq<u8>) {
    if text.len() <= bufsiz {
        (text.len() as isize, text)
    } else {
        (bufsiz as isize, text.take(bufsiz as int))
    }
}

/// The outcome of reading, from the state `s` on, a link whose text is
/// `text`.
pub open spec fn readlink_outcome(s: ReadLinkView, text: Seq<u8>) -> Result<Seq<u8>, Error>
    decreases READLINK_MAX_CAPACITY - s.capacity,
{
    let (ret, data) = readlink_answer(text, s.capacity);
    match s.resume(ret, data) {
        Progress::Done(r) => r,
        Progress::More(next) => if s.capacity < next.capacity <= READLINK_MAX_CAPACITY {
            readlink_outcome(next, text)
        } else {
            Err(Error::Os { code: ENAMETOOLONG })
        },
    }
}

/// Reading a link gives the exact text of the link, whatever the size of the
/// buffer that the reading starts with or stands at.
pub proof fn lemma_readlink_any_capacity(s: ReadLinkView, text: Seq<u8>)
    requires
        s.wf(),
        text.len() <= READLINK_LAST_DOUBLING,
    ensures
        readlink_outcome(s, text) == Ok::<Seq<u8>, Error>(text),
    decreases READLINK_MAX_CAPACITY - s.capacity,
{
    let (ret, data) = readlink_answer(text, s.capacity);
    if text.len() < s.capacity {
        assert(data.take(text.len() as int) == text);
    } else {
        let next = ReadLinkView { capacity: 2 * s.capacity, ..s };
        lemma_readlink_any_capacity(next, text);
    }
}

/// A link that is being read.
pub struct ReadLink {
    path: CString,
    capacity: usize,
}

impl View for ReadLink {
    type V = ReadLinkView;

    closed spec fn view(&self) -> ReadLinkView {
        ReadLinkView { path: self.path@, capacity: self.capacity as nat }
    }
}

/// The reading of the link named `p`: it starts with the first buffer size. A
/// name that cannot be handed to the kernel is refused.
pub open spec fn readlink_spec(p: Seq<u8>) -> Result<ReadLinkView, Error> {
    match cstr_spec(p) {
        Ok(path) => Ok(ReadLinkView { path, capacity: READLINK_FIRST_CAPACITY as nat }),
        Err(e) => Err(e),
    }
}

/// A reading that may have been refused, as contracts speak of it.
pub open spec fn readlink_view(r: Result<ReadLink, Error>) -> Result<ReadLinkView, Error> {
    match r {
        Ok(op) => Ok(op@),
        Err(e) => Err(e),
    }
}

/// Where a reading stands, as contracts speak of it.
pub open spec fn readlink_progress_view(p: Progress<ReadLink, Result<Vec<u8>, Error>>) -> Progress<
    ReadLinkView,
    Result<Seq<u8>, Error>,
> {
    match p {
        Progress::More(op) => Progress::More(op@),
        Progress::Done(Ok(text)) => Progress::Done(Ok(text@)),
        Progress::Done(Err(e)) => Progress::Done(Err(e)),
    }
}

/// Starts to read where the symbolic link named `p` leads.
pub fn readlink(p: &[u8]) -> (r: Result<ReadLink, Error>)
    ensures
        readlink_view(r) == readlink_spec(p@),
        r matches Ok(op) ==> op@.wf(),
{
    let path = cstr(p)?;
    Ok(ReadLink { path, capacity: READLINK_FIRST_CAPACITY })
}

impl ReadLink {
    #[verifier::type_invariant]
    spec fn inv(&self) -> bool {
        self@.wf()
    }

    /// The call to make next.
    pub fn request(&self) -> (call: Request)
        ensures
            call@ == self@.request(),
            self@.wf(),
    {
        proof {
            use_type_invariant(self);
        }
        Syscall::Readlink {
            path: self.path.duplicate(),
            bufsiz: self.capacity as i32,
        }
    }

    /// Takes the kernel's answer to the call that `request` named: the raw
    /// return value and the buffer that the kernel wrote to.
    pub fn resume(self, ret: isize, data: &[u8]) -> (p: Progress<ReadLink, Result<Vec<u8>, Error>>)
        requires
            self@.admits(ret, data@),
        ensures
            readlink_progress_view(p) == self@.resume(ret, data@),
    {
        proof {
            use_type_invariant(&self);
        }
        match cvt(ret) {
            Err(e) => Progress::Done(Err(e)),
            Ok(n) => {
                if n != self.capacity {
                    let text = vstd::slice::slice_to_vec(vstd::slice::slice_subrange(data, 0, n));
                    Progress::Done(Ok(text))
                } else if self.capacity <= READLINK_LAST_DOUBLING {
                    Progress::More(ReadLink { path: self.path, capacity: 2 * self.capacity })
                } else {
                    Progress::Done(Err(Error::from_raw_os_error(ENAMETOOLONG)))
                }
            },
        }
    }
}

} // verus!
