//! The end of the process.

use vstd::prelude::*;
use crate::args::{after, cleanup, ArgEvent, ArgStore};
use crate::syscall::{Request, Syscall};

verus! {

/// Ends the process with the status `code`: what the process holds for its
/// whole life is given up first, then comes the request that ends it. The
/// kernel does not answer that request.
pub fn exit(store: &mut ArgStore, code: i32) -> (call: Request)
    ensures
        final(store)@ == after(old(store)@, ArgEvent::Cleanup),
        call@ == (Syscall::<Seq<u8>>::Exit { code }),
{
    cleanup(store);
    Syscall::Exit { code }
}

} // verus!
