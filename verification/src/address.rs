use vstd::prelude::*;

verus! {

/// The identity of an account on the ledger: thirty-two bytes.
///
/// An address says nothing about whether a private key exists for it. The
/// addresses of records and of vault authorities are derived (see
/// `derivation`) and have none.
#[derive(Clone, Copy, Debug, PartialEq, Eq, Hash)]
pub struct Address {
    pub bytes: [u8; 32],
}

impl View for Address {
    type V = Seq<u8>;

    open spec fn view(&self) -> Seq<u8> {
        self.bytes@
    }
}

impl Address {
    /// The address made of the given bytes.
    pub fn new(bytes: [u8; 32]) -> (a: Address)
        ensures
            a.bytes == bytes,
    {
        Address { bytes }
    }

    /// The bytes of the address.
    pub fn to_bytes(&self) -> (bytes: [u8; 32])
        ensures
            bytes == self.bytes,
    {
        self.bytes
    }

    /// Whether two addresses are the same, byte for byte.
    pub fn same(&self, other: &Address) -> (b: bool)
        ensures
            b == (*self == *other),
    {
        let mut i: usize = 0;
        while i < 32
            invariant
                i <= 32,
                forall|j: int| 0 <= j < i ==> self.bytes[j] == other.bytes[j],
            decreases 32 - i,
        {
            if self.bytes[i] != other.bytes[i] {
                return false;
            }
            i += 1;
        }
        proof {
            Address::lemma_view_decides(*self, *other);
        }
        true
    }

    /// Two addresses with the same bytes are one address.
    pub proof fn lemma_view_decides(a: Address, b: Address)
        requires
            a@ =~= b@,
        ensures
            a == b,
    {
        assert(a.bytes =~= b.bytes);
    }
}

/// Whether an optional address is the given one.
pub fn is_address(candidate: &Option<Address>, expected: &Address) -> (b: bool)
    ensures
        b == (*candidate == Some(*expected)),
{
    match candidate {
        Some(a) => a.same(expected),
        None => false,
    }
}

/// Whether two optional addresses are both absent or the same address.
pub fn same_optional(left: &Option<Address>, right: &Option<Address>) -> (b: bool)
    ensures
        b == (*left == *right),
{
    match (left, right) {
        (Some(a), Some(b)) => a.same(b),
        (None, None) => true,
        _ => false,
    }
}

} // verus!
