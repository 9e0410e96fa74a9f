//! A sans-I/O core for a runtime that talks to the Linux kernel directly.
//!
//! Nothing in this crate performs a system call. Each operation is split into
//! the request that has to be handed to the kernel and the interpretation of
//! the raw value that the kernel hands back, so that every decision the layer
//! takes is an ordinary function with a contract.
//!
//! An operation that takes one call gives a [`syscall::Request`]. The caller
//! makes the call and hands the raw return value to
//! [`syscall::Syscall::settle`], which says what it means, or that the call
//! has to be made again.
//!
//! An operation that takes several calls gives a value that holds the
//! operation in progress. Its `request` names the call to make next, and its
//! `resume` takes the kernel's answer and gives a [`syscall::Progress`]: the
//! operation to go on with, or its outcome. Opening a file, reading a
//! descriptor to its end, reading a link and copying a file work this way.
//!
//! A directory is read through [`readdir::ReadDir`], which answers each
//! request for its next entry with the entry, with the end of the stream, or
//! with the call that fetches the next batch of entries.
//!
//! What the kernel gave stays owned: a [`fd::FileDesc`] is let go of by
//! `close` alone, which consumes it and gives the request that releases the
//! descriptor.

pub mod args;
pub mod attr;
pub mod copy;
pub mod cstring;
pub mod dirent;
pub mod errno;
pub mod error;
pub mod fd;
pub mod file;
pub mod fs;
pub mod linux;
pub mod open_options;
pub mod path;
pub mod process;
pub mod readdir;
pub mod readlink;
pub mod syscall;
