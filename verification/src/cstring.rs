//! NUL-terminated byte strings, the form in which the kernel takes and gives
//! names.

use vstd::prelude::*;
use crate::error::{Error, ErrorKind};

verus! {

/// The number of bytes of `s` that come before its first NUL byte, or the
/// length of `s` if it holds none.
pub open spec fn strlen_spec(s: Seq<u8>) -> nat
    decreases s.len(),
{
    if s.len() == 0 || s[0] == 0 {
        0
    } else {
        1 + strlen_spec(s.skip(1))
    }
}

/// Whether `s` holds a NUL byte.
pub open spec fn has_nul(s: Seq<u8>) -> bool {
    exists|i: int| 0 <= i < s.len() && s[i] == 0
}

/// The bytes of `s` that come before its first NUL byte.
pub open spec fn c_str(s: Seq<u8>) -> Seq<u8> {
    s.take(strlen_spec(s) as int)
}

/// `strlen_spec(s)` is the position of the first NUL byte of `s`.
pub proof fn lemma_strlen(s: Seq<u8>)
    ensures
        strlen_spec(s) <= s.len(),
        forall|i: int| 0 <= i < strlen_spec(s) ==> s[i] != 0,
        strlen_spec(s) < s.len() ==> s[strlen_spec(s) as int] == 0,
        has_nul(s) <==> strlen_spec(s) < s.len(),
    decreases s.len(),
{
    if s.len() > 0 && s[0] != 0 {
        let t = s.skip(1);
        lemma_strlen(t);
        assert forall|i: int| 0 <= i < strlen_spec(s) implies s[i] != 0 by {
            if i > 0 {
                assert(s[i] == t[i - 1]);
            }
        }
        if strlen_spec(s) < s.len() {
            assert(s[strlen_spec(s) as int] == t[strlen_spec(t) as int]);
        }
        if has_nul(s) {
            let i = choose|i: int| 0 <= i < s.len() && s[i] == 0;
            assert(t[i - 1] == 0);
        }
    }
}

/// A position that holds a NUL byte and has none before it is
/// `strlen_spec(s)`; so is the length of a sequence without NUL bytes.
pub proof fn lemma_strlen_unique(s: Seq<u8>, n: int)
    requires
        0 <= n <= s.len(),
        forall|i: int| 0 <= i < n ==> s[i] != 0,
        n < s.len() ==> s[n] == 0,
    ensures
        strlen_spec(s) == n,
{
    lemma_strlen(s);
    let m = strlen_spec(s) as int;
    if m < n {
        assert(s[m] != 0);
    } else if n < m {
        assert(s[n] == 0);
    }
}

/// Counts the bytes of `cs` that come before its first NUL byte; all of them
/// if `cs` holds none.
pub fn strlen(cs: &[u8]) -> (count: usize)
    ensures
        count == strlen_spec(cs@),
{
    let mut count: usize = 0;
    while count < cs.len() && cs[count] != 0
        invariant
            count <= cs.len(),
            forall|i: int| 0 <= i < count ==> cs@[i] != 0,
        decreases cs.len() - count,
    {
        count += 1;
    }
    proof {
        lemma_strlen_unique(cs@, count as int);
    }
    count
}

/// The text of the error that `cstr` reports.
pub open spec fn nul_error() -> Error {
    Error::Custom { kind: ErrorKind::InvalidInput, message: "data provided contains a nul byte" }
}

/// The bytes handed to the kernel for the name `path`: the name, closed by a
/// NUL byte. A name that holds a NUL byte itself cannot be handed over.
pub open spec fn cstr_spec(path: Seq<u8>) -> Result<Seq<u8>, Error> {
    if has_nul(path) {
        Err(nul_error())
    } else {
        Ok(path.push(0u8))
    }
}

/// Whether `bytes` are a name as the kernel takes it: the name itself, which
/// holds no NUL byte, closed by one.
pub open spec fn is_c_string(bytes: Seq<u8>) -> bool {
    &&& bytes.len() > 0
    &&& bytes.last() == 0
    &&& !has_nul(bytes.drop_last())
}

/// A name as the kernel takes it. Every value holds exactly one NUL byte,
/// which is its last byte, so the kernel can be pointed at its bytes.
#[derive(Debug, PartialEq, Eq)]
pub struct CString {
    inner: Vec<u8>,
}

impl View for CString {
    type V = Seq<u8>;

    closed spec fn view(&self) -> Seq<u8> {
        self.inner@
    }
}

/// A name that may have been refused, as contracts speak of it.
pub open spec fn c_string_view(r: Result<CString, Error>) -> Result<Seq<u8>, Error> {
    match r {
        Ok(name) => Ok(name@),
        Err(e) => Err(e),
    }
}

/// A name that holds no NUL byte, closed by one, is a name as the kernel
/// takes it.
pub proof fn lemma_terminated_is_c_string(name: Seq<u8>)
    requires
        !has_nul(name),
    ensures
        is_c_string(name.push(0u8)),
{
    assert(name.push(0u8).drop_last() == name);
}

impl CString {
    #[verifier::type_invariant]
    spec fn inv(&self) -> bool {
        is_c_string(self.inner@)
    }

    /// The bytes of the name, closing NUL included.
    pub fn as_bytes_with_nul(&self) -> (bytes: &[u8])
        ensures
            bytes@ == self@,
            is_c_string(self@),
    {
        proof {
            use_type_invariant(self);
        }
        self.inner.as_slice()
    }

    /// The bytes of the name, without the closing NUL.
    pub fn as_bytes(&self) -> (bytes: &[u8])
        ensures
            bytes@ == self@.drop_last(),
            is_c_string(self@),
    {
        proof {
            use_type_invariant(self);
        }
        vstd::slice::slice_subrange(self.inner.as_slice(), 0, self.inner.len() - 1)
    }

    /// A second value of the same name.
    pub fn duplicate(&self) -> (name: CString)
        ensures
            name@ == self@,
    {
        proof {
            use_type_invariant(self);
        }
        CString { inner: vstd::slice::slice_to_vec(self.inner.as_slice()) }
    }
}

/// Turns a name into the NUL-terminated form that the kernel takes.
pub fn cstr(path: &[u8]) -> (r: Result<CString, Error>)
    ensures
        c_string_view(r) == cstr_spec(path@),
{
    let n = strlen(path);
    proof {
        lemma_strlen(path@);
    }
    if n < path.len() {
        Err(Error::new(ErrorKind::InvalidInput, "data provided contains a nul byte"))
    } else {
        let mut c = vstd::slice::slice_to_vec(path);
        c.push(0u8);
        proof {
            lemma_terminated_is_c_string(path@);
        }
        Ok(CString { inner: c })
    }
}

} // verus!
