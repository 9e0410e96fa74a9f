//! The error value that every operation of this layer reports.

use vstd::prelude::*;
use crate::errno::{EACCES, EEXIST, EINTR, EINVAL, ENOENT, EPERM};

verus! {

/// The kinds of failure, named apart from the kernel's numbers.
#[derive(Clone, Copy, Debug, PartialEq, Eq, Hash)]
pub enum ErrorKind {
    NotFound,
    PermissionDenied,
    AlreadyExists,
    InvalidInput,
    InvalidData,
    Interrupted,
    WriteZero,
    Other,
}

/// Either an error number reported by the kernel, or a failure that this
/// layer found on its own before or after talking to the kernel.
#[derive(Clone, Copy, Debug, PartialEq, Eq)]
pub enum Error {
    Os { code: i32 },
    Custom { kind: ErrorKind, message: &'static str },
}

/// The classification of a kernel error number.
pub open spec fn kind_of_errno(code: i32) -> ErrorKind {
    if code == ENOENT {
        ErrorKind::NotFound
    } else if code == EPERM || code == EACCES {
        ErrorKind::PermissionDenied
    } else if code == EEXIST {
        ErrorKind::AlreadyExists
    } else if code == EINVAL {
        ErrorKind::InvalidInput
    } else if code == EINTR {
        ErrorKind::Interrupted
    } else {
        ErrorKind::Other
    }
}

/// Classifies a kernel error number.
pub fn decode_error_kind(code: i32) -> (kind: ErrorKind)
    ensures
        kind == kind_of_errno(code),
{
    if code == ENOENT {
        ErrorKind::NotFound
    } else if code == EPERM || code == EACCES {
        ErrorKind::PermissionDenied
    } else if code == EEXIST {
        ErrorKind::AlreadyExists
    } else if code == EINVAL {
        ErrorKind::InvalidInput
    } else if code == EINTR {
        ErrorKind::Interrupted
    } else {
        ErrorKind::Other
    }
}

impl Error {
    /// The classification of this error.
    pub open spec fn spec_kind(&self) -> ErrorKind {
        match *self {
            Error::Os { code } => kind_of_errno(code),
            Error::Custom { kind, .. } => kind,
        }
    }

    /// Whether this is the kernel's report of a call cut short by a signal.
    pub open spec fn is_interrupted(&self) -> bool {
        self.spec_kind() == ErrorKind::Interrupted
    }

    /// An error that carries the kernel error number `code`.
    pub fn from_raw_os_error(code: i32) -> (e: Error)
        ensures
            e == (Error::Os { code }),
    {
        Error::Os { code }
    }

    /// An error of this layer's own making.
    pub fn new(kind: ErrorKind, message: &'static str) -> (e: Error)
        ensures
            e == (Error::Custom { kind, message }),
    {
        Error::Custom { kind, message }
    }

    /// The kernel error number, if the kernel reported this error.
    pub fn raw_os_error(&self) -> (code: Option<i32>)
        ensures
            code == match *self {
                Error::Os { code } => Some(code),
                Error::Custom { .. } => None,
            },
    {
        match *self {
            Error::Os { code } => Some(code),
            Error::Custom { .. } => None,
        }
    }

    /// The classification of this error.
    #[verifier::when_used_as_spec(spec_kind)]
    pub fn kind(&self) -> (kind: ErrorKind)
        ensures
            kind == self.spec_kind(),
    {
        match *self {
            Error::Os { code } => decode_error_kind(code),
            Error::Custom { kind, .. } => kind,
        }
    }

    /// The text that comes with an error of this layer's own making.
    pub fn message(&self) -> (text: Option<&'static str>)
        ensures
            text == match *self {
                Error::Os { .. } => None::<&'static str>,
                Error::Custom { message, .. } => Some(message),
            },
    {
        match *self {
            Error::Os { .. } => None,
            Error::Custom { message, .. } => Some(message),
        }
    }
}

} // verus!
