//! Small helpers on byte strings.

use vstd::prelude::*;

verus! {

/// Appends `bytes` to `out`.
pub(crate) fn append_bytes(out: &mut Vec<u8>, bytes: &[u8])
    ensures
        final(out)@ == old(out)@ + bytes@,
{
    let mut i: usize = 0;
    while i < bytes.len()
        invariant
            i <= bytes@.len(),
            out@ == old(out)@ + bytes@.take(i as int),
        decreases bytes@.len() - i,
    {
        out.push(bytes[i]);
        assert(bytes@.take(i + 1) == bytes@.take(i as int).push(bytes@[i as int]));
        i += 1;
    }
    assert(bytes@.take(i as int) == bytes@);
}

/// Copies the 32 bytes of `bytes` that begin at `start`.
pub(crate) fn take_32(bytes: &[u8], start: usize) -> (word: [u8; 32])
    requires
        start + 32 <= bytes@.len(),
    ensures
        word@ == bytes@.subrange(start as int, start + 32),
{
    let len = bytes.len();
    let mut word = [0u8; 32];
    let mut i: usize = 0;
    while i < 32
        invariant
            i <= 32,
            start + 32 <= len,
            len == bytes@.len(),
            forall|k: int| 0 <= k < i ==> word@[k] == bytes@[start + k],
        decreases 32 - i,
    {
        word[i] = bytes[start + i];
        i += 1;
    }
    assert(word@ =~= bytes@.subrange(start as int, start + 32));
    word
}

/// Whether two 32-byte words hold the same bytes.
pub(crate) fn same_32(left: &[u8; 32], right: &[u8; 32]) -> (same: bool)
    ensures
        same == (left@ == right@),
{
    let mut i: usize = 0;
    while i < 32
        invariant
            i <= 32,
            forall|k: int| 0 <= k < i ==> left@[k] == right@[k],
        decreases 32 - i,
    {
        if left[i] != right[i] {
            return false;
        }
        i += 1;
    }
    assert(left@ =~= right@);
    true
}

} // verus!
