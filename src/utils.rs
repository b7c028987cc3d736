//! Miscellaneous utilities.
use vstd::prelude::*;

verus! {

/// Copies a byte slice into a new vector.
pub fn copy_bytes(bytes: &[u8]) -> (r: Vec<u8>)
    ensures
        r@ == bytes@,
{
    let mut r: Vec<u8> = Vec::with_capacity(bytes.len());
    append_bytes(&mut r, bytes);
    r
}

/// Appends a byte slice to a vector.
pub fn append_bytes(dst: &mut Vec<u8>, bytes: &[u8])
    ensures
        final(dst)@ == old(dst)@ + bytes@,
{
    let ghost start = dst@;
    let mut i: usize = 0;
    while i < bytes.len()
        invariant
            i <= bytes@.len(),
            dst@ == start + bytes@.subrange(0, i as int),
        decreases bytes@.len() - i,
    {
        dst.push(bytes[i]);
        i = i + 1;
        assert(bytes@.subrange(0, i as int) == bytes@.subrange(0, i - 1) + seq![bytes@[i - 1]]);
    }
    assert(bytes@.subrange(0, i as int) == bytes@);
}

/// Key material.
#[derive(Clone, Debug)]
pub struct KeyBytes(Vec<u8>);

impl View for KeyBytes {
    type V = Seq<u8>;

    closed spec fn view(&self) -> Seq<u8> {
        self.0@
    }
}

impl KeyBytes {
    /// Makes a key from a copy of a byte slice.
    pub fn copy_slice(bytes: &[u8]) -> (r: KeyBytes)
        ensures
            r@ == bytes@,
    {
        KeyBytes(copy_bytes(bytes))
    }

    /// Makes an empty key.
    pub fn empty() -> (r: KeyBytes)
        ensures
            r@ == Seq::<u8>::empty(),
    {
        KeyBytes(Vec::new())
    }

    /// Returns key bytes.
    pub fn as_bytes(&self) -> (r: &[u8])
        ensures
            r@ == self@,
    {
        self.0.as_slice()
    }
}

} // verus!
