//! Addresses: the 32-byte names of accounts and programs.

use vstd::prelude::*;

verus! {

/// The name of an account or of a program.
#[derive(Clone, Copy, Debug, PartialEq, Eq)]
pub struct Address {
    pub bytes: [u8; 32],
}

impl View for Address {
    type V = Seq<u8>;

    open spec fn view(&self) -> Seq<u8> {
        self.bytes@
    }
}

/// An optional address as the bytes it holds, if any.
pub open spec fn optional_view(a: Option<Address>) -> Option<Seq<u8>> {
    match a {
        Some(a) => Some(a@),
        None => None,
    }
}

impl Address {
    /// The address with these bytes.
    pub fn new(bytes: [u8; 32]) -> (r: Address)
        ensures
            r@ == bytes@,
            r@.len() == 32,
    {
        Address { bytes }
    }

    /// Whether two addresses hold the same bytes.
    pub fn same_as(&self, other: &Address) -> (r: bool)
        ensures
            r == (self@ == other@),
    {
        let mut i: usize = 0;
        while i < 32
            invariant
                i <= 32,
                forall|k: int| 0 <= k < i ==> self.bytes@[k] == other.bytes@[k],
            decreases 32 - i,
        {
            if self.bytes[i] != other.bytes[i] {
                return false;
            }
            i += 1;
        }
        assert(self@ =~= other@);
        true
    }

    /// The address spelled by the 32 bytes of `source` that start at `at`.
    pub(crate) fn read(source: &[u8], at: usize) -> (r: Address)
        requires
            at + 32 <= source@.len(),
        ensures
            r@ == source@.subrange(at as int, at + 32),
    {
        let mut bytes: [u8; 32] = [0u8; 32];
        let mut i: usize = 0;
        while i < 32
            invariant
                i <= 32,
                at + 32 <= source.len(),
                forall|k: int| 0 <= k < i ==> bytes@[k] == source@[at + k],
            decreases 32 - i,
        {
            bytes[i] = source[at + i];
            i += 1;
        }
        assert(bytes@ =~= source@.subrange(at as int, at + 32));
        Address { bytes }
    }

    /// Appends the 32 bytes of the address to `out`.
    pub fn write(&self, out: &mut Vec<u8>)
        ensures
            final(out)@ == old(out)@ + self@,
    {
        let mut i: usize = 0;
        while i < 32
            invariant
                i <= 32,
                out@ == old(out)@ + self@.subrange(0, i as int),
            decreases 32 - i,
        {
            out.push(self.bytes[i]);
            assert(self@.subrange(0, i + 1) =~= self@.subrange(0, i as int).push(self@[i as int]));
            i += 1;
        }
        assert(self@.subrange(0, 32) =~= self@);
    }
}

} // verus!
