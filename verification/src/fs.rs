//! Operations on files and directories by name.

use vstd::prelude::*;
use crate::attr::{FileAttr, FilePermissions, Stat64};
use crate::cstring::{cstr, cstr_spec};
use crate::error::Error;
use crate::file::{open_spec, open_view, File, OpenFile};
use crate::linux::O_DIRECTORY;
use crate::open_options::{OpenIntent, OpenOptions, DEFAULT_FILE_MODE};
use crate::syscall::{cvt, cvt_spec, request_view, Request, RequestView, Syscall};

verus! {

/// The mode bits of a directory that is made where the caller names none.
pub const DEFAULT_DIR_MODE: u32 = 0o777;

/// Makes directories.
#[derive(Debug)]
pub struct DirBuilder {
    mode: u32,
}

impl View for DirBuilder {
    type V = u32;

    closed spec fn view(&self) -> u32 {
        self.mode
    }
}

/// The request that makes the directory named `p` with the mode bits `mode`.
pub open spec fn mkdir_spec(p: Seq<u8>, mode: u32) -> Result<RequestView, Error> {
    match cstr_spec(p) {
        Ok(path) => Ok(Syscall::Mkdir { path, mode: mode as u16 }),
        Err(e) => Err(e),
    }
}

impl DirBuilder {
    /// A builder of directories with the default mode bits.
    pub fn new() -> (builder: DirBuilder)
        ensures
            builder@ == DEFAULT_DIR_MODE,
    {
        DirBuilder { mode: DEFAULT_DIR_MODE }
    }

    /// The request that makes the directory named `p`.
    pub fn mkdir(&self, p: &[u8]) -> (r: Result<Request, Error>)
        ensures
            request_view(r) == mkdir_spec(p@, self@),
    {
        let path = cstr(p)?;
        Ok(Syscall::Mkdir { path, mode: self.mode as u16 })
    }

    /// Sets the mode bits of the directories that get made.
    pub fn set_mode(&mut self, mode: u32)
        ensures
            final(self)@ == mode,
    {
        self.mode = mode;
    }
}

/// The wishes with which a directory is opened to be read: reading, and the
/// flag that makes the kernel refuse anything but a directory.
pub open spec fn readdir_intent() -> OpenIntent {
    OpenIntent {
        read: true,
        write: false,
        append: false,
        truncate: false,
        create: false,
        create_new: false,
        custom_flags: O_DIRECTORY,
        mode: DEFAULT_FILE_MODE,
    }
}

/// Starts to open the directory named `p` to read its entries. The stream of
/// entries is made of the descriptor that the open gives.
pub fn readdir(p: &[u8]) -> (r: Result<OpenFile, Error>)
    ensures
        open_view(r) == open_spec(p@, readdir_intent()),
{
    let mut oo = OpenOptions::new();
    oo.read(true);
    oo.custom_flags(O_DIRECTORY);
    File::open(p, &oo)
}

/// The request that removes the name `p`.
pub open spec fn unlink_spec(p: Seq<u8>) -> Result<RequestView, Error> {
    match cstr_spec(p) {
        Ok(path) => Ok(Syscall::Unlink { path }),
        Err(e) => Err(e),
    }
}

/// The request that removes the name `p` of a file.
pub fn unlink(p: &[u8]) -> (r: Result<Request, Error>)
    ensures
        request_view(r) == unlink_spec(p@),
{
    let path = cstr(p)?;
    Ok(Syscall::Unlink { path })
}

/// A request that takes two names: the first name that cannot be handed to
/// the kernel is the one whose refusal is reported.
pub open spec fn two_names_spec(
    first: Seq<u8>,
    second: Seq<u8>,
    call: spec_fn(Seq<u8>, Seq<u8>) -> RequestView,
) -> Result<RequestView, Error> {
    match cstr_spec(first) {
        Ok(a) => match cstr_spec(second) {
            Ok(b) => Ok(call(a, b)),
            Err(e) => Err(e),
        },
        Err(e) => Err(e),
    }
}

/// The request that gives the file named `from` the name `to`.
pub open spec fn rename_spec(from: Seq<u8>, to: Seq<u8>) -> Result<RequestView, Error> {
    two_names_spec(from, to, |a: Seq<u8>, b: Seq<u8>| Syscall::Rename { from: a, to: b })
}

/// The request that gives the file named `from` the name `to`.
pub fn rename(from: &[u8], to: &[u8]) -> (r: Result<Request, Error>)
    ensures
        request_view(r) == rename_spec(from@, to@),
{
    let a = cstr(from)?;
    let b = cstr(to)?;
    Ok(Syscall::Rename { from: a, to: b })
}

/// The request that sets the permission bits of the file named `p`.
pub open spec fn set_perm_spec(p: Seq<u8>, mode: u32) -> Result<RequestView, Error> {
    match cstr_spec(p) {
        Ok(path) => Ok(Syscall::Chmod { path, mode: mode as u16 }),
        Err(e) => Err(e),
    }
}

/// The request that sets the permission bits of the file named `p`.
pub fn set_perm(p: &[u8], perm: FilePermissions) -> (r: Result<Request, Error>)
    ensures
        request_view(r) == set_perm_spec(p@, perm@),
{
    let path = cstr(p)?;
    Ok(Syscall::Chmod { path, mode: perm.mode() as u16 })
}

/// The request that removes the empty directory named `p`.
pub open spec fn rmdir_spec(p: Seq<u8>) -> Result<RequestView, Error> {
    match cstr_spec(p) {
        Ok(path) => Ok(Syscall::Rmdir { path }),
        Err(e) => Err(e),
    }
}

/// The request that removes the empty directory named `p`.
pub fn rmdir(p: &[u8]) -> (r: Result<Request, Error>)
    ensures
        request_view(r) == rmdir_spec(p@),
{
    let path = cstr(p)?;
    Ok(Syscall::Rmdir { path })
}

/// The request that makes `dst` a symbolic link to `src`.
pub open spec fn symlink_spec(src: Seq<u8>, dst: Seq<u8>) -> Result<RequestView, Error> {
    two_names_spec(
        src,
        dst,
        |a: Seq<u8>, b: Seq<u8>| Syscall::Symlink { target: a, linkpath: b },
    )
}

/// The request that makes `dst` a symbolic link to `src`.
pub fn symlink(src: &[u8], dst: &[u8]) -> (r: Result<Request, Error>)
    ensures
        request_view(r) == symlink_spec(src@, dst@),
{
    let a = cstr(src)?;
    let b = cstr(dst)?;
    Ok(Syscall::Symlink { target: a, linkpath: b })
}

/// The request that makes `dst` another name of the file named `src`.
pub open spec fn link_spec(src: Seq<u8>, dst: Seq<u8>) -> Result<RequestView, Error> {
    two_names_spec(src, dst, |a: Seq<u8>, b: Seq<u8>| Syscall::Link { target: a, linkpath: b })
}

/// The request that makes `dst` another name of the file named `src`.
pub fn link(src: &[u8], dst: &[u8]) -> (r: Result<Request, Error>)
    ensures
        request_view(r) == link_spec(src@, dst@),
{
    let a = cstr(src)?;
    let b = cstr(dst)?;
    Ok(Syscall::Link { target: a, linkpath: b })
}

/// The request for the metadata of the file named `p`, symbolic links
/// followed.
pub open spec fn stat_spec(p: Seq<u8>) -> Result<RequestView, Error> {
    match cstr_spec(p) {
        Ok(path) => Ok(Syscall::Stat64 { path }),
        Err(e) => Err(e),
    }
}

/// The request for the metadata of the file named `p`. If `p` names a
/// symbolic link, the metadata is that of the file it leads to.
pub fn stat(p: &[u8]) -> (r: Result<Request, Error>)
    ensures
        request_view(r) == stat_spec(p@),
{
    let path = cstr(p)?;
    Ok(Syscall::Stat64 { path })
}

/// The request for the metadata of the file named `p`, a final symbolic link
/// not followed.
pub open spec fn lstat_spec(p: Seq<u8>) -> Result<RequestView, Error> {
    match cstr_spec(p) {
        Ok(path) => Ok(Syscall::Lstat64 { path }),
        Err(e) => Err(e),
    }
}

/// The request for the metadata of the file named `p`. If `p` names a
/// symbolic link, the metadata is that of the link itself.
pub fn lstat(p: &[u8]) -> (r: Result<Request, Error>)
    ensures
        request_view(r) == lstat_spec(p@),
{
    let path = cstr(p)?;
    Ok(Syscall::Lstat64 { path })
}

/// What a request for metadata gives, from the kernel's raw return value
/// `ret` and the record `stat` that it wrote: the failure, or the record.
pub open spec fn attr_result_spec(ret: isize, stat: Stat64) -> Result<Stat64, Error> {
    match cvt_spec(ret) {
        Ok(_) => Ok(stat),
        Err(e) => Err(e),
    }
}

/// Metadata that may have failed to come about, as contracts speak of it.
pub open spec fn attr_view(r: Result<FileAttr, Error>) -> Result<Stat64, Error> {
    match r {
        Ok(attr) => Ok(attr@),
        Err(e) => Err(e),
    }
}

/// What a request for metadata gives, from the kernel's raw return value
/// `ret` and the record that it wrote.
pub fn attr_result(ret: isize, stat: Stat64) -> (r: Result<FileAttr, Error>)
    ensures
        attr_view(r) == attr_result_spec(ret, stat),
{
    cvt(ret)?;
    Ok(FileAttr::from_stat(stat))
}

} // verus!
