//! Copying bytes.

use vstd::prelude::*;

verus! {

/// Appends the bytes of `source` to `target`.
pub(crate) fn extend(target: &mut Vec<u8>, source: &[u8])
    ensures
        final(target)@ == old(target)@ + source@,
{
    let ghost before = target@;
    let mut i: usize = 0;
    while i < source.len()
        invariant
            i <= source@.len(),
            target@ == before + source@.subrange(0, i as int),
        decreases source@.len() - i,
    {
        target.push(source[i]);
        assert(target@ =~= before + source@.subrange(0, i + 1));
        i += 1;
    }
    assert(source@.subrange(0, source@.len() as int) =~= source@);
}

/// A vector with the bytes of `source`.
pub(crate) fn to_vec(source: &[u8]) -> (copy: Vec<u8>)
    ensures
        copy@ == source@,
{
    let mut copy: Vec<u8> = Vec::new();
    extend(&mut copy, source);
    assert(copy@ =~= source@);
    copy
}

} // verus!
