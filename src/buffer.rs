//! Byte buffers of a fixed length.
use vstd::prelude::*;

verus! {

/// A buffer of `len` bytes, each `value`.
pub fn filled(len: usize, value: u8) -> (r: Vec<u8>)
    ensures
        r@ == Seq::new(len as nat, |i: int| value),
{
    let mut r: Vec<u8> = Vec::with_capacity(len);
    let mut i: usize = 0;
    while i < len
        invariant
            i <= len,
            r@ == Seq::new(i as nat, |k: int| value),
        decreases len - i,
    {
        r.push(value);
        i = i + 1;
        assert(r@ =~= Seq::new(i as nat, |k: int| value));
    }
    r
}

} // verus!
