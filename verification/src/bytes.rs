//! Fixed-size keys and the byte-level helpers shared by the wire formats.

use vstd::prelude::*;

verus! {

/// Copies the 32 bytes that start at `start` into a key.
pub fn read_key(data: &[u8], start: usize) -> (key: [u8; 32])
    requires
        start + 32 <= data@.len(),
    ensures
        key@ == data@.subrange(start as int, start + 32),
{
    let mut key = [0u8; 32];
    let mut i: usize = 0;
    while i < 32
        invariant
            i <= 32,
            start + 32 <= data.len(),
            forall|j: int| 0 <= j < i ==> key@[j] == data@[start + j],
        decreases 32 - i,
    {
        key[i] = data[start + i];
        i = i + 1;
    }
    assert(key@ =~= data@.subrange(start as int, start + 32));
    key
}

/// Whether two keys hold the same bytes.
pub fn keys_equal(a: &[u8; 32], b: &[u8; 32]) -> (eq: bool)
    ensures
        eq == (a@ == b@),
{
    let mut i: usize = 0;
    while i < 32
        invariant
            i <= 32,
            forall|j: int| 0 <= j < i ==> a@[j] == b@[j],
        decreases 32 - i,
    {
        if a[i] != b[i] {
            return false;
        }
        i = i + 1;
    }
    assert(a@ =~= b@);
    true
}

/// Appends the bytes of a key.
pub fn push_key(out: &mut Vec<u8>, key: &[u8; 32])
    ensures
        final(out)@ == old(out)@ + key@,
{
    let ghost start = out@;
    let mut i: usize = 0;
    while i < 32
        invariant
            i <= 32,
            out@ == start + key@.subrange(0, i as int),
        decreases 32 - i,
    {
        out.push(key[i]);
        i = i + 1;
        assert(out@ =~= start + key@.subrange(0, i as int));
    }
    assert(key@.subrange(0, 32) =~= key@);
}

/// Appends every byte of `bytes`.
pub fn push_bytes(out: &mut Vec<u8>, bytes: &[u8])
    ensures
        final(out)@ == old(out)@ + bytes@,
{
    let ghost start = out@;
    let mut i: usize = 0;
    while i < bytes.len()
        invariant
            i <= bytes.len(),
            out@ == start + bytes@.subrange(0, i as int),
        decreases bytes.len() - i,
    {
        out.push(bytes[i]);
        i = i + 1;
        assert(out@ =~= start + bytes@.subrange(0, i as int));
    }
    assert(bytes@.subrange(0, bytes@.len() as int) =~= bytes@);
}

} // verus!
