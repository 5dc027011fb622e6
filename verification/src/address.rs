//! Account addresses.

use vstd::prelude::*;

verus! {

/// The address of an account on the ledger: 32 bytes.
#[derive(Clone, Copy, Debug, PartialEq, Eq)]
pub struct Address {
    pub bytes: [u8; 32],
}

impl View for Address {
    type V = Seq<u8>;

    open spec fn view(&self) -> Seq<u8> {
        self.bytes@
    }
}

impl Address {
    /// The address made of `bytes`.
    pub fn new(bytes: [u8; 32]) -> (a: Address)
        ensures
            a@ == bytes@,
            a.bytes == bytes,
    {
        Address { bytes }
    }

    /// Whether two addresses are the same 32 bytes.
    pub fn same(&self, other: &Address) -> (r: bool)
        ensures
            r == (self@ == other@),
    {
        let mut i: usize = 0;
        while i < 32
            invariant
                i <= 32,
                forall|j: int| 0 <= j < i ==> self.bytes@[j] == other.bytes@[j],
            decreases 32 - i,
        {
            if self.bytes[i] != other.bytes[i] {
                return false;
            }
            i += 1;
        }
        assert(self@ =~= other@);
        true
    }

    /// The address stored in `bytes` from `off` on.
    pub(crate) fn read(bytes: &[u8], off: usize) -> (a: Address)
        requires
            off + 32 <= bytes@.len(),
        ensures
            a@ == bytes@.subrange(off as int, off + 32),
    {
        let len: usize = bytes.len();
        let mut out: [u8; 32] = [0u8; 32];
        let mut i: usize = 0;
        while i < 32
            invariant
                i <= 32,
                off + 32 <= len,
                len == bytes@.len(),
                forall|j: int| 0 <= j < i ==> out@[j] == bytes@[off + j],
            decreases 32 - i,
        {
            out[i] = bytes[off + i];
            i += 1;
        }
        assert(out@ =~= bytes@.subrange(off as int, off + 32));
        Address { bytes: out }
    }
}

} // verus!
