//! Byte-level model: the big-endian integer value of a byte string, and the
//! fixed 32-byte buffer used for keys, digests and signature halves.

use vstd::prelude::*;

verus! {

/// The unsigned integer a byte string denotes in big-endian order.
pub open spec fn be_u256(s: Seq<u8>) -> nat
    decreases s.len(),
{
    if s.len() == 0 {
        0
    } else {
        (be_u256(s.drop_last()) * 256 + s.last()) as nat
    }
}

/// A fixed 32-byte buffer, the external form of every scalar and digest this
/// library handles.
#[derive(Debug)]
pub struct H256 {
    bytes: Vec<u8>,
}

impl View for H256 {
    type V = Seq<u8>;

    closed spec fn view(&self) -> Seq<u8> {
        self.bytes@
    }
}

impl H256 {
    #[verifier::type_invariant]
    spec fn type_inv(self) -> bool {
        self.bytes@.len() == 32
    }

    /// Copies 32 bytes of `src`, starting at `start`, into a fresh buffer.
    pub fn from_slice(src: &[u8], start: usize) -> (r: H256)
        requires
            start + 32 <= src@.len(),
        ensures
            r@ == src@.subrange(start as int, start + 32),
    {
        let n: usize = src.len();
        let mut bytes: Vec<u8> = Vec::new();
        let mut i: usize = 0;
        while i < 32
            invariant
                i <= 32,
                start + 32 <= n == src@.len(),
                bytes@ == src@.subrange(start as int, start + i),
            decreases 32 - i,
        {
            bytes.push(src[start + i]);
            proof {
                assert(bytes@ =~= src@.subrange(start as int, start + i + 1));
            }
            i = i + 1;
        }
        proof {
            assert(bytes@ =~= src@.subrange(start as int, start + 32));
        }
        H256 { bytes }
    }

    /// The buffer's bytes as a slice, always exactly 32 bytes long.
    pub fn as_slice(&self) -> (r: &[u8])
        ensures
            r@ == self@,
            r@.len() == 32,
    {
        proof {
            use_type_invariant(self);
        }
        self.bytes.as_slice()
    }

    /// An owned copy of the buffer's bytes.
    pub fn to_vec(&self) -> (r: Vec<u8>)
        ensures
            r@ == self@,
            r@.len() == 32,
    {
        proof {
            use_type_invariant(self);
        }
        let s = self.bytes.as_slice();
        vstd::slice::slice_to_vec(s)
    }
}

} // verus!
