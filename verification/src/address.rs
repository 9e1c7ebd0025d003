//! Ledger addresses.

use vstd::prelude::*;

verus! {

/// A 32-byte ledger address: a user, a token account, a mint or a signing
/// authority.
#[derive(Clone, Copy, Debug, PartialEq, Eq, Hash)]
pub struct Address {
    pub bytes: [u8; 32],
}

impl Address {
    /// The all-zero address that fills unused roster slots and unbound
    /// referral fields.
    pub open spec fn zero() -> Address {
        Address { bytes: vstd::array::spec_array_fill_for_copy_type::<u8, 32>(0u8) }
    }

    pub fn new(bytes: [u8; 32]) -> (a: Address)
        ensures
            a.bytes == bytes,
    {
        Address { bytes }
    }

    /// Whether two addresses are the same.
    pub fn same(&self, other: &Address) -> (r: bool)
        ensures
            r == (*self == *other),
    {
        let mut i: usize = 0;
        while i < 32
            invariant
                i <= 32,
                forall|j: int| 0 <= j < i ==> self.bytes[j] == other.bytes[j],
            decreases 32 - i,
        {
            if self.bytes[i] != other.bytes[i] {
                return false;
            }
            i = i + 1;
        }
        assert(self.bytes =~= other.bytes);
        true
    }
}

impl View for Address {
    type V = Seq<u8>;

    /// The address's 32 bytes.
    open spec fn view(&self) -> Seq<u8> {
        self.bytes@
    }
}

/// Addresses with the same bytes are the same address.
pub proof fn lemma_address_by_bytes(a: Address, b: Address)
    requires
        a@ == b@,
    ensures
        a == b,
{
    assert forall|i: int| 0 <= i < 32 implies a.bytes[i] == b.bytes[i] by {
        assert(a.bytes[i] == a@[i]);
        assert(b.bytes[i] == b@[i]);
    }
    assert(a.bytes =~= b.bytes);
}

impl Default for Address {
    fn default() -> (a: Address)
        ensures
            a == Address::zero(),
    {
        Address { bytes: [0u8; 32] }
    }
}

} // verus!
