//! File metadata: a snapshot of the kernel's stat record and the views that
//! are derived from it.

use vstd::prelude::*;
use crate::error::{Error, ErrorKind};
use crate::linux::{S_IFDIR, S_IFLNK, S_IFMT, S_IFREG};

verus! {

/// The fields of the kernel's 64-bit stat record.
#[derive(Clone, Copy, Debug, PartialEq, Eq)]
pub struct Stat64 {
    pub st_dev: u64,
    pub st_ino: u64,
    pub st_mode: u32,
    pub st_nlink: u64,
    pub st_uid: u32,
    pub st_gid: u32,
    pub st_rdev: u64,
    pub st_size: i64,
    pub st_blksize: i64,
    pub st_blocks: i64,
    pub st_atime: i64,
    pub st_atime_nsec: i64,
    pub st_mtime: i64,
    pub st_mtime_nsec: i64,
    pub st_ctime: i64,
    pub st_ctime_nsec: i64,
}

/// A point in time as the kernel reports it: seconds and nanoseconds.
#[derive(Clone, Copy, Debug, PartialEq, Eq)]
pub struct Timespec {
    pub tv_sec: i64,
    pub tv_nsec: i64,
}

/// A time stamp of a file.
#[derive(Clone, Copy, Debug, PartialEq, Eq)]
pub struct SystemTime {
    t: Timespec,
}

impl View for SystemTime {
    type V = Timespec;

    closed spec fn view(&self) -> Timespec {
        self.t
    }
}

impl SystemTime {
    /// The time stamp that stands for the kernel's `t`.
    pub fn from_timespec(t: Timespec) -> (time: SystemTime)
        ensures
            time@ == t,
    {
        SystemTime { t }
    }

    /// The seconds and nanoseconds of this time stamp.
    pub fn as_timespec(&self) -> (t: Timespec)
        ensures
            t == self@,
    {
        self.t
    }
}

/// The metadata of a file at the moment it was asked for.
#[derive(Clone, Copy, Debug)]
pub struct FileAttr {
    stat: Stat64,
}

/// The permission bits of a file.
#[derive(Clone, Copy, PartialEq, Eq, Debug)]
pub struct FilePermissions {
    mode: u32,
}

/// The kind of a file: the mode of which only the format bits count.
#[derive(Copy, Clone, PartialEq, Eq, Hash, Debug)]
pub struct FileType {
    mode: u32,
}

impl View for FileAttr {
    type V = Stat64;

    closed spec fn view(&self) -> Stat64 {
        self.stat
    }
}

impl View for FilePermissions {
    type V = u32;

    closed spec fn view(&self) -> u32 {
        self.mode
    }
}

impl View for FileType {
    type V = u32;

    closed spec fn view(&self) -> u32 {
        self.mode
    }
}

/// Mask of the nine permission bits of a mode.
pub const PERMISSION_BITS: u32 = 0o777;

/// Mask of the three write bits of a mode: owner, group and others.
pub const WRITE_BITS: u32 = 0o222;

/// Whether a mode grants nobody the right to write.
pub open spec fn mode_is_readonly(mode: u32) -> bool {
    mode & WRITE_BITS == 0
}

/// A mode with its three write bits cleared (`readonly`) or set.
pub open spec fn mode_with_readonly(mode: u32, readonly: bool) -> u32 {
    if readonly {
        mode & !WRITE_BITS
    } else {
        mode | WRITE_BITS
    }
}

/// Whether the format bits of `mode` are exactly `format`.
pub open spec fn mode_has_format(mode: u32, format: u32) -> bool {
    mode & S_IFMT == format
}

/// The error that stands for a creation time.
pub open spec fn creation_time_error() -> Error {
    Error::Custom {
        kind: ErrorKind::Other,
        message: "creation time is not available on this platform currently",
    }
}

/// Setting the read-only state of a mode makes the mode report that state,
/// and touches no bit but the three write bits.
pub proof fn lemma_readonly_round_trip(mode: u32, readonly: bool)
    ensures
        mode_is_readonly(mode_with_readonly(mode, readonly)) == readonly,
        mode_with_readonly(mode, readonly) & !WRITE_BITS == mode & !WRITE_BITS,
        mode_with_readonly(mode, readonly) & WRITE_BITS == 0 || mode_with_readonly(mode, readonly)
            & WRITE_BITS == WRITE_BITS,
{
    assert((mode & !0o222u32) & 0o222u32 == 0) by (bit_vector);
    assert((mode | 0o222u32) & 0o222u32 == 0o222u32) by (bit_vector);
    assert((mode & !0o222u32) & !0o222u32 == mode & !0o222u32) by (bit_vector);
    assert((mode | 0o222u32) & !0o222u32 == mode & !0o222u32) by (bit_vector);
}

impl FileAttr {
    /// The metadata that the kernel's record `stat` carries.
    pub fn from_stat(stat: Stat64) -> (attr: FileAttr)
        ensures
            attr@ == stat,
    {
        FileAttr { stat }
    }

    /// The kernel's record.
    pub fn as_inner(&self) -> (stat: &Stat64)
        ensures
            *stat == self@,
    {
        &self.stat
    }

    /// The size of the file in bytes.
    pub fn size(&self) -> (size: u64)
        ensures
            size == self@.st_size as u64,
    {
        self.stat.st_size as u64
    }

    /// The nine permission bits of the file.
    pub fn perm(&self) -> (perm: FilePermissions)
        ensures
            perm@ == self@.st_mode & PERMISSION_BITS,
    {
        FilePermissions { mode: self.stat.st_mode & PERMISSION_BITS }
    }

    /// The kind of the file.
    pub fn file_type(&self) -> (file_type: FileType)
        ensures
            file_type@ == self@.st_mode,
    {
        FileType { mode: self.stat.st_mode }
    }

    /// When the file was last modified.
    pub fn modified(&self) -> (r: Result<SystemTime, Error>)
        ensures
            r matches Ok(time) && time@ == (Timespec {
                tv_sec: self@.st_mtime,
                tv_nsec: self@.st_mtime_nsec,
            }),
    {
        Ok(
            SystemTime::from_timespec(
                Timespec { tv_sec: self.stat.st_mtime, tv_nsec: self.stat.st_mtime_nsec },
            ),
        )
    }

    /// When the file was last read.
    pub fn accessed(&self) -> (r: Result<SystemTime, Error>)
        ensures
            r matches Ok(time) && time@ == (Timespec {
                tv_sec: self@.st_atime,
                tv_nsec: self@.st_atime_nsec,
            }),
    {
        Ok(
            SystemTime::from_timespec(
                Timespec { tv_sec: self.stat.st_atime, tv_nsec: self.stat.st_atime_nsec },
            ),
        )
    }

    /// When the file was created: the kernel's record does not say, so this
    /// fails for every file.
    pub fn created(&self) -> (r: Result<SystemTime, Error>)
        ensures
            r == Err::<SystemTime, Error>(creation_time_error()),
    {
        Err(
            Error::new(
                ErrorKind::Other,
                "creation time is not available on this platform currently",
            ),
        )
    }
}

impl FilePermissions {
    /// The permissions that the bits `mode` spell.
    pub fn from_mode(mode: u32) -> (perm: FilePermissions)
        ensures
            perm@ == mode,
    {
        FilePermissions { mode }
    }

    /// Whether nobody may write: none of the three write bits is set.
    pub fn readonly(&self) -> (r: bool)
        ensures
            r == mode_is_readonly(self@),
    {
        self.mode & WRITE_BITS == 0
    }

    /// Clears the three write bits (`readonly`) or sets them, all together.
    pub fn set_readonly(&mut self, readonly: bool)
        ensures
            final(self)@ == mode_with_readonly(old(self)@, readonly),
            mode_is_readonly(final(self)@) == readonly,
    {
        proof {
            lemma_readonly_round_trip(self.mode, readonly);
        }
        if readonly {
            self.mode = self.mode & !WRITE_BITS;
        } else {
            self.mode = self.mode | WRITE_BITS;
        }
    }

    /// The permission bits.
    pub fn mode(&self) -> (mode: u32)
        ensures
            mode == self@,
    {
        self.mode
    }
}

impl FileType {
    /// The kind that the mode `mode` spells.
    pub fn from_mode(mode: u32) -> (file_type: FileType)
        ensures
            file_type@ == mode,
    {
        FileType { mode }
    }

    /// Whether this is a directory.
    pub fn is_dir(&self) -> (r: bool)
        ensures
            r == mode_has_format(self@, S_IFDIR),
    {
        self.is(S_IFDIR)
    }

    /// Whether this is a regular file.
    pub fn is_file(&self) -> (r: bool)
        ensures
            r == mode_has_format(self@, S_IFREG),
    {
        self.is(S_IFREG)
    }

    /// Whether this is a symbolic link.
    pub fn is_symlink(&self) -> (r: bool)
        ensures
            r == mode_has_format(self@, S_IFLNK),
    {
        self.is(S_IFLNK)
    }

    /// Whether the format bits of this kind are exactly `mode`.
    pub fn is(&self, mode: u32) -> (r: bool)
        ensures
            r == mode_has_format(self@, mode),
    {
        self.mode & S_IFMT == mode
    }
}

} // verus!
