//! Kernel error numbers that this layer names.

use vstd::prelude::*;

verus! {

/// Operation not permitted.
pub const EPERM: i32 = 1;

/// No such file or directory.
pub const ENOENT: i32 = 2;

/// Interrupted system call.
pub const EINTR: i32 = 4;

/// Permission denied.
pub const EACCES: i32 = 13;

/// File exists.
pub const EEXIST: i32 = 17;

/// Invalid argument.
pub const EINVAL: i32 = 22;

/// File name too long.
pub const ENAMETOOLONG: i32 = 36;

/// Largest error number that a raw system call return value can encode.
pub const MAX_ERRNO: i32 = 4095;

} // verus!
