//! Transaction parameter buffers.
//!
//! A parcel is the serialized parameter buffer of one transaction. The
//! facade does not interpret a parcel's payload encoding; it only carries
//! the bytes across the boundary intact. A transaction callback reads the
//! input parcel and appends to the output parcel.

use vstd::prelude::*;

verus! {

/// A serialized parameter buffer for one transaction, viewed as the
/// sequence of bytes it holds.
#[derive(Debug, Eq, Hash, Ord, PartialEq, PartialOrd)]
pub struct Parcel {
    data: Vec<u8>,
}

impl View for Parcel {
    type V = Seq<u8>;

    closed spec fn view(&self) -> Seq<u8> {
        self.data@
    }
}

impl Parcel {
    /// An empty parcel.
    pub fn new() -> (r: Parcel)
        ensures
            r@ == Seq::<u8>::empty(),
    {
        Parcel { data: Vec::new() }
    }

    /// A parcel holding exactly `bytes`.
    pub fn from_bytes(bytes: Vec<u8>) -> (r: Parcel)
        ensures
            r@ == bytes@,
    {
        Parcel { data: bytes }
    }

    /// The number of bytes held.
    pub fn len(&self) -> (r: usize)
        ensures
            r == self@.len(),
    {
        self.data.len()
    }

    /// Whether the parcel holds no bytes.
    pub fn is_empty(&self) -> (r: bool)
        ensures
            r == (self@.len() == 0),
    {
        self.data.len() == 0
    }

    /// The byte at position `i`.
    pub fn byte_at(&self, i: usize) -> (r: u8)
        requires
            i < self@.len(),
        ensures
            r == self@[i as int],
    {
        self.data[i]
    }

    /// The bytes held, in order.
    pub fn as_bytes(&self) -> (r: &Vec<u8>)
        ensures
            r@ == self@,
    {
        &self.data
    }

    /// Appends `bytes` to the end of the parcel.
    pub fn append_bytes(&mut self, bytes: &Vec<u8>)
        ensures
            final(self)@ == old(self)@ + bytes@,
    {
        let ghost orig: Seq<u8> = self@;
        let n = bytes.len();
        let mut i: usize = 0;
        proof {
            assert(orig + bytes@.subrange(0, 0) =~= orig);
        }
        while i < n
            invariant
                i <= n,
                n == bytes@.len(),
                self@ == orig + bytes@.subrange(0, i as int),
            decreases n - i,
        {
            self.data.push(bytes[i]);
            i = i + 1;
            proof {
                assert(self@ =~= orig + bytes@.subrange(0, i as int));
            }
        }
        proof {
            assert(orig + bytes@.subrange(0, n as int) =~= orig + bytes@);
        }
    }
}

} // verus!
