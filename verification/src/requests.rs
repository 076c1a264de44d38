use vstd::prelude::*;

use crate::address::Address;
use crate::derivation::{signs, vault_authority};

verus! {

/// A movement of native currency, which the system program carries out.
#[derive(Clone, Copy, Debug, PartialEq, Eq)]
pub struct Payment {
    pub from: Address,
    pub to: Address,
    pub lamports: u64,
}

/// The seeds with which the program proves its control of the address of a
/// vault: the vault tag, the asset and a salt byte. They stand in for a
/// signature, since no private key exists for the address.
#[derive(Clone, Copy, Debug, PartialEq, Eq)]
pub struct VaultSeeds {
    pub asset: Address,
    pub bump: u8,
}

/// A request to the collaborator to move an asset to a new owner.
#[derive(Clone, Copy, Debug, PartialEq, Eq)]
pub struct TransferRequest {
    /// The asset to move.
    pub asset: Address,
    /// The collection to which the asset belongs, if any.
    pub collection: Option<Address>,
    /// The account that pays for the request.
    pub payer: Address,
    /// The owner or delegate of the asset, where it is not the payer.
    pub authority: Option<Address>,
    /// Who is to own the asset.
    pub new_owner: Address,
    /// The system program.
    pub system_program: Option<Address>,
    /// The log wrapper, if any.
    pub log_wrapper: Option<Address>,
    /// The collaborator to which the request goes.
    pub program: Address,
    /// The seeds that prove control of the authority, where the authority
    /// is the address of a vault. Without seeds the authority signs.
    pub signer_seeds: Option<VaultSeeds>,
}

impl TransferRequest {
    /// The authority on whose behalf the asset is to move: the named
    /// authority, or the payer where none is named.
    pub open spec fn acting_authority(&self) -> Address {
        match self.authority {
            Some(authority) => authority,
            None => self.payer,
        }
    }

    /// The address of which the request proves control under `program`:
    /// with seeds, the address that the seeds derive; without seeds, the
    /// acting authority, if a signature of it can exist.
    pub open spec fn controller(&self, program: Address) -> Option<Seq<u8>> {
        match self.signer_seeds {
            Some(seeds) => vault_authority(seeds.asset, seeds.bump, program),
            None => if signs(self.acting_authority()) {
                Some(self.acting_authority()@)
            } else {
                None
            },
        }
    }

    /// Whether the request shows control of its acting authority, where it
    /// proves control of `controller`.
    pub open spec fn proves_control(&self, controller: Option<Seq<u8>>) -> bool {
        controller == Some(self.acting_authority()@)
    }

    /// The authority on whose behalf the asset is to move.
    pub fn acting(&self) -> (authority: Address)
        ensures
            authority == self.acting_authority(),
    {
        match self.authority {
            Some(authority) => authority,
            None => self.payer,
        }
    }
}

} // verus!
