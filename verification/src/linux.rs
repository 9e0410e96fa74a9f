//! Constants of the kernel interface: open flags, file mode bits, directory
//! entry type tags, seek origins and descriptor commands.

use vstd::prelude::*;

verus! {

pub const O_RDONLY: i32 = 0o0;

pub const O_WRONLY: i32 = 0o1;

pub const O_RDWR: i32 = 0o2;

/// Mask of the access mode bits inside a set of open flags.
pub const O_ACCMODE: i32 = 0o3;

pub const O_CREAT: i32 = 0o100;

pub const O_EXCL: i32 = 0o200;

pub const O_TRUNC: i32 = 0o1000;

pub const O_APPEND: i32 = 0o2000;

pub const O_LARGEFILE: i32 = 0o100000;

pub const O_DIRECTORY: i32 = 0o200000;

pub const O_CLOEXEC: i32 = 0o2000000;

/// Mask of the file format bits inside a mode.
pub const S_IFMT: u32 = 0o170000;

pub const S_IFIFO: u32 = 0o010000;

pub const S_IFCHR: u32 = 0o020000;

pub const S_IFDIR: u32 = 0o040000;

pub const S_IFBLK: u32 = 0o060000;

pub const S_IFREG: u32 = 0o100000;

pub const S_IFLNK: u32 = 0o120000;

pub const S_IFSOCK: u32 = 0o140000;

pub const DT_UNKNOWN: u8 = 0;

pub const DT_FIFO: u8 = 1;

pub const DT_CHR: u8 = 2;

pub const DT_DIR: u8 = 4;

pub const DT_BLK: u8 = 6;

pub const DT_REG: u8 = 8;

pub const DT_LNK: u8 = 10;

pub const DT_SOCK: u8 = 12;

pub const SEEK_SET: u32 = 0;

pub const SEEK_CUR: u32 = 1;

pub const SEEK_END: u32 = 2;

/// `fcntl` command: write the descriptor flags.
pub const F_SETFD: i32 = 2;

/// `fcntl` command: read the file status flags.
pub const F_GETFL: i32 = 3;

/// Descriptor flag: close the descriptor when the process image is replaced.
pub const FD_CLOEXEC: i32 = 1;

} // verus!
