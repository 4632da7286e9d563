//! Paths as the control channel takes them: filesystem-native bytes closed by
//! a terminating zero byte.

use vstd::prelude::*;

verus! {

/// The byte that closes a path on its way to the channel.
pub const TERMINATOR: u8 = 0;

/// A path is clean when it holds no terminator byte of its own.
pub open spec fn is_clean(path: Seq<u8>) -> bool {
    forall|i: int| 0 <= i < path.len() ==> path[i] != TERMINATOR
}

/// A terminated path is a clean path followed by one terminator.
pub open spec fn is_terminated(bytes: Seq<u8>) -> bool {
    bytes.len() > 0 && bytes.last() == TERMINATOR && is_clean(bytes.drop_last())
}

/// Copies `path` and appends the terminator. A path with an embedded
/// terminator is turned down, and only such a path.
pub fn c_path(path: &[u8]) -> (r: Option<Vec<u8>>)
    ensures
        r is Some <==> is_clean(path@),
        r matches Some(bytes) ==> bytes@ == path@.push(TERMINATOR) && is_terminated(bytes@),
{
    let mut out: Vec<u8> = Vec::new();
    let mut i: usize = 0;
    while i < path.len()
        invariant
            i <= path.len(),
            out@ == path@.subrange(0, i as int),
            forall|j: int| 0 <= j < i ==> path@[j] != TERMINATOR,
        decreases path.len() - i,
    {
        if path[i] == TERMINATOR {
            return None;
        }
        out.push(path[i]);
        assert(out@ =~= path@.subrange(0, i + 1));
        i += 1;
    }
    assert(out@ =~= path@);
    out.push(TERMINATOR);
    assert(out@.drop_last() =~= path@);
    Some(out)
}

} // verus!
