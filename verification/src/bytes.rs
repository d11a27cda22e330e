//! Helpers on byte strings.
use vstd::prelude::*;

verus! {

/// Whether two byte strings hold the same bytes.
pub fn bytes_eq(a: &Vec<u8>, b: &Vec<u8>) -> (r: bool)
    ensures
        r == (a@ == b@),
{
    let r = a == b;
    proof {
        if r {
            assert(a@ =~= b@);
        }
    }
    r
}

/// Appends `tail` to `bytes`.
pub fn append_bytes(bytes: &mut Vec<u8>, tail: &Vec<u8>)
    ensures
        final(bytes)@ == old(bytes)@ + tail@,
{
    bytes.extend_from_slice(tail.as_slice());
    assert(bytes@ =~= old(bytes)@ + tail@);
}

} // verus!
