//! Byte strings, and Unix paths written as such.
use vstd::prelude::*;

verus! {

/// A copy of `bytes`.
pub fn copy_bytes(bytes: &[u8]) -> (copy: Vec<u8>)
    ensures
        copy@ == bytes@,
{
    let mut copy: Vec<u8> = Vec::new();
    copy.extend_from_slice(bytes);
    assert(copy@ =~= bytes@);
    copy
}

/// The byte `/`, which separates the components of a path.
pub const SEPARATOR: u8 = 0x2f;

/// `part` taken relative to `base`. An absolute `part` replaces `base`; otherwise
/// the two are set one behind the other, with one separator between them unless
/// `base` is empty or ends in one already.
pub open spec fn join_spec(base: Seq<u8>, part: Seq<u8>) -> Seq<u8> {
    if part.len() > 0 && part[0] == SEPARATOR {
        part
    } else if base.len() > 0 && base.last() != SEPARATOR {
        base.push(SEPARATOR) + part
    } else {
        base + part
    }
}

/// `part` taken relative to `base`, as [`std::path::Path::join`] takes it on Unix.
pub fn join(base: &Vec<u8>, part: &[u8]) -> (path: Vec<u8>)
    ensures
        path@ == join_spec(base@, part@),
{
    if part.len() > 0 && part[0] == SEPARATOR {
        return copy_bytes(part);
    }
    let mut path = copy_bytes(base.as_slice());
    if base.len() > 0 && base[base.len() - 1] != SEPARATOR {
        path.push(SEPARATOR);
    }
    let ghost prefix = path@;
    path.extend_from_slice(part);
    assert(path@ =~= prefix + part@);
    path
}

} // verus!
