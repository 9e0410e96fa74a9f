//! The kernel's 64-bit directory entry record.
//!
//! A batch of entries is a run of records of varying length. Each record
//! starts with a fixed header of little-endian fields: the inode number
//! (8 bytes), the offset of the next entry (8 bytes), the length of the whole
//! record (2 bytes) and the type tag (1 byte). The NUL-terminated name
//! follows the header, and padding follows the name.

use vstd::prelude::*;
use crate::cstring::{c_str, has_nul, lemma_strlen, strlen};

verus! {

/// Where the name starts inside a record.
pub const DIRENT_NAME_OFFSET: usize = 19;

/// Where the length of a record stands inside the record.
pub const DIRENT_RECLEN_OFFSET: usize = 16;

/// Where the type tag stands inside a record.
pub const DIRENT_TYPE_OFFSET: usize = 18;

/// The number that the two bytes of `b` from `at` on spell, low byte first.
pub open spec fn u16_le(b: Seq<u8>, at: int) -> int {
    b[at] as int + 0x100 * (b[at + 1] as int)
}

/// The number that the eight bytes of `b` from `at` on spell, low byte first.
pub open spec fn u64_le(b: Seq<u8>, at: int) -> int {
    b[at] as int + 0x100 * (b[at + 1] as int) + 0x1_0000 * (b[at + 2] as int) + 0x100_0000 * (b[at
        + 3] as int) + 0x1_0000_0000 * (b[at + 4] as int) + 0x100_0000_0000 * (b[at + 5] as int)
        + 0x1_0000_0000_0000 * (b[at + 6] as int) + 0x100_0000_0000_0000 * (b[at + 7] as int)
}

/// Reads a 16-bit little-endian number.
pub fn read_u16_le(b: &[u8], at: usize) -> (v: u16)
    requires
        at + 2 <= b@.len(),
    ensures
        v == u16_le(b@, at as int),
{
    let lo: u16 = b[at] as u16;
    let hi: u16 = b[at + 1] as u16;
    lo + 0x100 * hi
}

/// Reads a 64-bit little-endian number.
pub fn read_u64_le(b: &[u8], at: usize) -> (v: u64)
    requires
        at + 8 <= b@.len(),
    ensures
        v == u64_le(b@, at as int),
{
    let b0: u64 = b[at] as u64;
    let b1: u64 = b[at + 1] as u64;
    let b2: u64 = b[at + 2] as u64;
    let b3: u64 = b[at + 3] as u64;
    let b4: u64 = b[at + 4] as u64;
    let b5: u64 = b[at + 5] as u64;
    let b6: u64 = b[at + 6] as u64;
    let b7: u64 = b[at + 7] as u64;
    let low: u64 = b0 + 0x100 * b1 + 0x1_0000 * b2 + 0x100_0000 * b3;
    let high: u64 = b4 + 0x100 * b5 + 0x1_0000 * b6 + 0x100_0000 * b7;
    low + 0x1_0000_0000 * high
}

/// The fixed header of a directory entry record.
#[derive(Clone, Copy, Debug, PartialEq, Eq)]
pub struct Dirent64 {
    pub d_ino: u64,
    pub d_off: i64,
    pub d_reclen: u16,
    pub d_type: u8,
}

/// The length that the record at the start of `rec` declares for itself.
pub open spec fn record_len(rec: Seq<u8>) -> int {
    u16_le(rec, DIRENT_RECLEN_OFFSET as int)
}

/// The part of the record at the start of `rec` that follows its header.
pub open spec fn record_body(rec: Seq<u8>) -> Seq<u8> {
    rec.subrange(DIRENT_NAME_OFFSET as int, record_len(rec))
}

/// Whether `rec` starts with a whole record: the header is there, the
/// declared length covers the header, stays inside `rec`, and the name ends
/// inside the record.
pub open spec fn record_ok(rec: Seq<u8>) -> bool {
    &&& DIRENT_NAME_OFFSET < rec.len()
    &&& DIRENT_NAME_OFFSET < record_len(rec) <= rec.len()
    &&& has_nul(record_body(rec))
}

/// The header of the record at the start of `rec`.
pub open spec fn record_header(rec: Seq<u8>) -> Dirent64 {
    Dirent64 {
        d_ino: u64_le(rec, 0) as u64,
        d_off: (u64_le(rec, 8) as u64) as i64,
        d_reclen: record_len(rec) as u16,
        d_type: rec[DIRENT_TYPE_OFFSET as int],
    }
}

/// The name of the record at the start of `rec`, without its closing NUL.
pub open spec fn record_name(rec: Seq<u8>) -> Seq<u8> {
    c_str(record_body(rec))
}

/// Reads the record at the start of `rec`: its header and its name. `None`
/// when `rec` does not start with a whole record.
pub fn parse_record(rec: &[u8]) -> (r: Option<(Dirent64, Vec<u8>)>)
    ensures
        match r {
            Some((header, name)) => record_ok(rec@) && header == record_header(rec@) && name@
                == record_name(rec@),
            None => !record_ok(rec@),
        },
{
    if rec.len() <= DIRENT_NAME_OFFSET {
        return None;
    }
    let reclen: u16 = read_u16_le(rec, DIRENT_RECLEN_OFFSET);
    if reclen as usize <= DIRENT_NAME_OFFSET || reclen as usize > rec.len() {
        return None;
    }
    let body = vstd::slice::slice_subrange(rec, DIRENT_NAME_OFFSET, reclen as usize);
    let n = strlen(body);
    proof {
        lemma_strlen(body@);
    }
    if n >= body.len() {
        return None;
    }
    let name = vstd::slice::slice_to_vec(vstd::slice::slice_subrange(body, 0, n));
    let header = Dirent64 {
        d_ino: read_u64_le(rec, 0),
        d_off: read_u64_le(rec, 8) as i64,
        d_reclen: reclen,
        d_type: rec[DIRENT_TYPE_OFFSET],
    };
    Some((header, name))
}

} // verus!
