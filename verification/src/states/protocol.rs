use vstd::bytes::{
    lemma_auto_spec_u64_to_from_le_bytes, spec_u64_from_le_bytes, spec_u64_to_le_bytes,
    u64_from_le_bytes, u64_to_le_bytes,
};
use vstd::prelude::*;
use vstd::slice::slice_subrange;

use crate::states::layout::{append, starts_with};

verus! {

/// The fee policy of one protocol owner. It is written once, when the owner
/// initializes the protocol, and read by every lock that names the owner.
#[derive(Clone, Copy, Debug, PartialEq, Eq)]
pub struct Protocol {
    /// The units of native currency charged for a lock.
    pub rent_fee: u64,
    /// The salt byte that derives the address of this record.
    pub bump: u8,
}

/// The eight bytes with which a stored protocol configuration begins.
pub const PROTOCOL_DISCRIMINATOR: [u8; 8] = [45, 39, 101, 43, 115, 72, 131, 40];

impl Protocol {
    /// The bytes that the record occupies in storage: a discriminator of
    /// eight bytes, the fee and the salt byte.
    pub const INIT_SPACE: usize = 8 + 8 + 1;

    /// The record as it is stored: the discriminator, the fee in eight
    /// bytes, lowest first, and the salt byte.
    pub open spec fn layout(self) -> Seq<u8> {
        PROTOCOL_DISCRIMINATOR@ + spec_u64_to_le_bytes(self.rent_fee) + seq![self.bump]
    }

    /// The record that stored bytes hold: one where they are long enough
    /// and begin with the discriminator. Bytes after the record do not
    /// count.
    pub open spec fn parsed(data: Seq<u8>) -> Option<Protocol> {
        if data.len() >= 17 && data.subrange(0, 8) == PROTOCOL_DISCRIMINATOR@ {
            Some(
                Protocol {
                    rent_fee: spec_u64_from_le_bytes(data.subrange(8, 16)),
                    bump: data[16],
                },
            )
        } else {
            None
        }
    }

    /// A stored record has the size of the record and reads back as the
    /// record that was stored.
    pub proof fn law_layout_reads_back(self)
        ensures
            self.layout().len() == Protocol::INIT_SPACE,
            Protocol::parsed(self.layout()) == Some(self),
    {
        lemma_auto_spec_u64_to_from_le_bytes();
        let data = self.layout();
        assert(data.subrange(0, 8) =~= PROTOCOL_DISCRIMINATOR@);
        assert(data.subrange(8, 16) =~= spec_u64_to_le_bytes(self.rent_fee));
    }

    /// Bytes that hold a record begin with the layout of that record.
    pub proof fn law_parsed_is_stored(data: Seq<u8>)
        requires
            Protocol::parsed(data) is Some,
        ensures
            data.subrange(0, 17) == Protocol::parsed(data).unwrap().layout(),
    {
        lemma_auto_spec_u64_to_from_le_bytes();
        let record = Protocol::parsed(data).unwrap();
        assert(spec_u64_to_le_bytes(record.rent_fee) == data.subrange(8, 16));
        assert(data.subrange(0, 17) =~= data.subrange(0, 8) + data.subrange(8, 16)
            + seq![data[16]]);
    }

    /// The record as it is stored.
    pub fn to_bytes(&self) -> (data: Vec<u8>)
        ensures
            data@ == self.layout(),
    {
        let mut data: Vec<u8> = Vec::new();
        append(&mut data, PROTOCOL_DISCRIMINATOR.as_slice());
        let fee = u64_to_le_bytes(self.rent_fee);
        append(&mut data, fee.as_slice());
        data.push(self.bump);
        assert(data@ =~= self.layout());
        data
    }

    /// Reads a record from stored bytes.
    pub fn from_bytes(data: &[u8]) -> (r: Option<Protocol>)
        ensures
            r == Protocol::parsed(data@),
    {
        if data.len() < 17 || !starts_with(data, PROTOCOL_DISCRIMINATOR.as_slice()) {
            return None;
        }
        let rent_fee = u64_from_le_bytes(slice_subrange(data, 8, 16));
        Some(Protocol { rent_fee, bump: data[16] })
    }
}

} // verus!
