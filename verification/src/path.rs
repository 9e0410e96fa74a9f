//! Names of files as plain bytes.

use vstd::prelude::*;

verus! {

/// The byte that separates the components of a name.
pub const SEPARATOR: u8 = 0x2f;

/// `name` seen from the directory `root`: an absolute `name` stands for
/// itself; otherwise it follows `root`, with one separator put between the
/// two unless `root` is empty or already ends in one.
pub open spec fn join_spec(root: Seq<u8>, name: Seq<u8>) -> Seq<u8> {
    if name.len() > 0 && name[0] == SEPARATOR {
        name
    } else if root.len() > 0 && root.last() != SEPARATOR {
        root.push(SEPARATOR) + name
    } else {
        root + name
    }
}

/// Appends `src` to `dst`.
pub fn push_bytes(dst: &mut Vec<u8>, src: &[u8])
    ensures
        final(dst)@ == old(dst)@ + src@,
{
    let mut i: usize = 0;
    while i < src.len()
        invariant
            i <= src.len(),
            dst@ == old(dst)@ + src@.take(i as int),
        decreases src.len() - i,
    {
        dst.push(src[i]);
        i += 1;
    }
}

/// Joins the name of a directory and a name found in it.
pub fn join(root: &[u8], name: &[u8]) -> (path: Vec<u8>)
    ensures
        path@ == join_spec(root@, name@),
{
    let mut path: Vec<u8> = Vec::new();
    if name.len() > 0 && name[0] == SEPARATOR {
        push_bytes(&mut path, name);
        return path;
    }
    push_bytes(&mut path, root);
    if root.len() > 0 && root[root.len() - 1] != SEPARATOR {
        path.push(SEPARATOR);
    }
    push_bytes(&mut path, name);
    path
}

} // verus!
