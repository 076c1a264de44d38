use vstd::prelude::*;

use crate::address::Address;
use crate::states::layout::{append, starts_with};

verus! {

/// The bookkeeping entry of one asset: who is owed payment when the asset is
/// released. A lock overwrites it; a swap reads it and leaves it as it is.
#[derive(Clone, Copy, Debug, PartialEq, Eq)]
pub struct Vault {
    /// Whoever supplied the asset at the last lock.
    pub previous_owner: Address,
    /// The salt byte that derives the address of this record, which is the
    /// keyless authority that holds the asset.
    pub bump: u8,
}

/// The eight bytes with which a stored vault record begins.
pub const VAULT_DISCRIMINATOR: [u8; 8] = [211, 8, 232, 43, 2, 152, 117, 119];

impl Vault {
    /// The bytes that the record occupies in storage: a discriminator of
    /// eight bytes, the address of the previous owner and the salt byte.
    pub const INIT_SPACE: usize = 8 + 32 + 1;

    /// The record as it is stored: the discriminator, the address of the
    /// previous owner and the salt byte.
    pub open spec fn layout(self) -> Seq<u8> {
        VAULT_DISCRIMINATOR@ + self.previous_owner@ + seq![self.bump]
    }

    /// The record that stored bytes hold: one where they are long enough
    /// and begin with the discriminator. Bytes after the record do not
    /// count.
    pub open spec fn parsed(data: Seq<u8>) -> Option<Vault> {
        if data.len() >= 41 && data.subrange(0, 8) == VAULT_DISCRIMINATOR@ {
            Some(Vault { previous_owner: address_at(data, 8), bump: data[40] })
        } else {
            None
        }
    }

    /// A stored record has the size of the record and reads back as the
    /// record that was stored.
    pub proof fn law_layout_reads_back(self)
        ensures
            self.layout().len() == Vault::INIT_SPACE,
            Vault::parsed(self.layout()) == Some(self),
    {
        let data = self.layout();
        assert(data.subrange(0, 8) =~= VAULT_DISCRIMINATOR@);
        assert(data.subrange(8, 40) =~= self.previous_owner@);
        lemma_address_at(data, 8);
        Address::lemma_view_decides(address_at(data, 8), self.previous_owner);
    }

    /// Bytes that hold a record begin with the layout of that record.
    pub proof fn law_parsed_is_stored(data: Seq<u8>)
        requires
            Vault::parsed(data) is Some,
        ensures
            data.subrange(0, 41) == Vault::parsed(data).unwrap().layout(),
    {
        lemma_address_at(data, 8);
        assert(data.subrange(0, 41) =~= data.subrange(0, 8) + data.subrange(8, 40)
            + seq![data[40]]);
    }

    /// The record as it is stored.
    pub fn to_bytes(&self) -> (data: Vec<u8>)
        ensures
            data@ == self.layout(),
    {
        let mut data: Vec<u8> = Vec::new();
        append(&mut data, VAULT_DISCRIMINATOR.as_slice());
        append(&mut data, self.previous_owner.bytes.as_slice());
        data.push(self.bump);
        assert(data@ =~= self.layout());
        data
    }

    /// Reads a record from stored bytes.
    pub fn from_bytes(data: &[u8]) -> (r: Option<Vault>)
        ensures
            r == Vault::parsed(data@),
    {
        if data.len() < 41 || !starts_with(data, VAULT_DISCRIMINATOR.as_slice()) {
            return None;
        }
        let mut bytes = [0u8; 32];
        let mut i: usize = 0;
        while i < 32
            invariant
                i <= 32,
                data.len() >= 41,
                forall|j: int| 0 <= j < i ==> bytes[j] == data@[8 + j],
            decreases 32 - i,
        {
            bytes[i] = data[8 + i];
            i += 1;
        }
        let previous_owner = Address::new(bytes);
        proof {
            lemma_address_at(data@, 8);
            assert(previous_owner@ =~= data@.subrange(8, 40));
            Address::lemma_view_decides(previous_owner, address_at(data@, 8));
        }
        Some(Vault { previous_owner, bump: data[40] })
    }
}

/// The address whose bytes are the thirty-two bytes of `data` from `start`.
pub open spec fn address_at(data: Seq<u8>, start: int) -> Address {
    choose|a: Address| a@ == data.subrange(start, start + 32)
}

/// There is an address for any thirty-two bytes.
pub proof fn lemma_address_at(data: Seq<u8>, start: int)
    requires
        0 <= start,
        start + 32 <= data.len(),
    ensures
        address_at(data, start)@ == data.subrange(start, start + 32),
{
    let bytes = data.subrange(start, start + 32);
    let witness = Address { bytes: array_of(bytes) };
    lemma_array_of(bytes);
    assert(witness@ == bytes);
}

/// The array of the thirty-two bytes `bytes`.
pub open spec fn array_of(bytes: Seq<u8>) -> [u8; 32] {
    choose|a: [u8; 32]| a@ == bytes
}

proof fn lemma_array_of(bytes: Seq<u8>)
    requires
        bytes.len() == 32,
    ensures
        array_of(bytes)@ == bytes,
{
    let a: [u8; 32] = [
        bytes[0], bytes[1], bytes[2], bytes[3], bytes[4], bytes[5], bytes[6], bytes[7],
        bytes[8], bytes[9], bytes[10], bytes[11], bytes[12], bytes[13], bytes[14], bytes[15],
        bytes[16], bytes[17], bytes[18], bytes[19], bytes[20], bytes[21], bytes[22], bytes[23],
        bytes[24], bytes[25], bytes[26], bytes[27], bytes[28], bytes[29], bytes[30], bytes[31],
    ];
    assert(a@ =~= bytes);
}

} // verus!
