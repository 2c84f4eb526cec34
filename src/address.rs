//! Ledger addresses and 32-byte digests.
use vstd::prelude::*;

verus! {

/// A 32-byte ledger address (a public key).
#[derive(Clone, Copy, Debug)]
pub struct Address {
    pub bytes: [u8; 32],
}

impl Address {
    pub open spec fn view(&self) -> Seq<u8> {
        self.bytes@
    }

    pub fn new(bytes: [u8; 32]) -> (r: Address)
        ensures
            r@ == bytes@,
    {
        Address { bytes }
    }

    /// Whether two addresses hold the same bytes.
    pub fn same_as(&self, other: &Address) -> (r: bool)
        ensures
            r == (self@ == other@),
    {
        bytes_equal(&self.bytes, &other.bytes)
    }
}

/// Whether two 32-byte values are equal, byte by byte.
pub fn bytes_equal(a: &[u8; 32], b: &[u8; 32]) -> (r: bool)
    ensures
        r == (a@ == b@),
{
    let mut i: usize = 0;
    while i < 32
        invariant
            0 <= i <= 32,
            a@.len() == 32,
            b@.len() == 32,
            forall|j: int| 0 <= j < i ==> a@[j] == b@[j],
        decreases 32 - i,
    {
        if a[i] != b[i] {
            return false;
        }
        i = i + 1;
    }
    assert(a@ =~= b@);
    true
}

} // verus!
