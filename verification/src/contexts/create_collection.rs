use vstd::prelude::*;

use crate::address::Address;
use crate::collaborator::{vacant, Metadata, MetadataView};
use crate::constants::{is_asset_program, is_system_program, ASSET_PROGRAM, SYSTEM_PROGRAM};
use crate::derivation::{can_sign, signs};
use crate::errors::EscrowError;
use crate::ledger::{Ledger, LedgerState};

verus! {

/// The accounts of the creation of a collection, which the collaborator
/// carries out. Naming an address as `payer` or `collection` stands for its
/// signature.
#[derive(Clone, Copy, Debug, PartialEq, Eq)]
pub struct CreateCollection {
    /// The account paying for the creation.
    pub payer: Address,
    /// The address of the new collection.
    pub collection: Address,
    /// The update authority of the new collection. Where none is named, it
    /// is the payer.
    pub update_authority: Option<Address>,
    /// The asset-management collaborator.
    pub mpl_core: Address,
    /// The system program.
    pub system_program: Address,
}

/// How the new collection is described.
pub struct CreateCollectionArgs {
    pub name: String,
    pub uri: String,
    pub plugins: Option<Vec<mpl_core::types::PluginAuthorityPair>>,
}

impl View for CreateCollectionArgs {
    type V = MetadataView;

    open spec fn view(&self) -> MetadataView {
        MetadataView {
            name: self.name@,
            uri: self.uri@,
            plugins: match self.plugins {
                Some(plugins) => Some(plugins@),
                None => None,
            },
        }
    }
}

impl CreateCollection {
    /// Who may update the new collection: the named update authority, or
    /// the payer where none is named.
    pub open spec fn first_authority(&self) -> Address {
        match self.update_authority {
            Some(authority) => authority,
            None => self.payer,
        }
    }

    /// Whether a signature can exist of each account that signs the
    /// creation: the payer and the new collection.
    pub open spec fn signed(&self) -> bool {
        &&& signs(self.payer)
        &&& signs(self.collection)
    }

    /// What the address checks of a creation give: success where the
    /// signers can sign and the two programs are the expected ones.
    pub open spec fn checked(&self, signed: bool) -> Result<(), EscrowError> {
        if signed && self.system_program@ == SYSTEM_PROGRAM@ && self.mpl_core@ == ASSET_PROGRAM@ {
            Ok(())
        } else {
            Err(EscrowError::DerivationMismatch)
        }
    }

    /// What the creation of a collection described by `args` does to the
    /// ledger `s`: where the collaborator accepts it, the collection exists
    /// under its first update authority.
    pub open spec fn created(&self, s: LedgerState, args: MetadataView) -> Result<
        LedgerState,
        EscrowError,
    > {
        if !vacant(s.assets, s.collections, self.collection) {
            Err(EscrowError::CollaboratorRejection)
        } else {
            Ok(
                LedgerState {
                    collections: s.collections.insert(self.collection, self.first_authority()),
                    metadata: s.metadata.insert(self.collection, args),
                    ..s
                },
            )
        }
    }

    /// What a creation does to the ledger `s`: the address checks, then the
    /// creation itself.
    pub open spec fn outcome(&self, s: LedgerState, args: MetadataView) -> Result<
        LedgerState,
        EscrowError,
    > {
        match self.checked(self.signed()) {
            Ok(_) => self.created(s, args),
            Err(e) => Err(e),
        }
    }

    /// Whether a signature can exist of each account that signs the
    /// creation.
    pub fn signers_can_sign(&self) -> (b: bool)
        ensures
            b == self.signed(),
    {
        can_sign(&self.payer) && can_sign(&self.collection)
    }

    /// Checks that the two programs are the expected ones. `signed` says
    /// whether the signers can sign.
    pub fn check_addresses(&self, signed: bool) -> (r: Result<(), EscrowError>)
        ensures
            r == self.checked(signed),
    {
        if signed && is_system_program(&self.system_program) && is_asset_program(&self.mpl_core) {
            Ok(())
        } else {
            Err(EscrowError::DerivationMismatch)
        }
    }

    /// Asks the collaborator to create the collection: all of `created`, or
    /// an error and no change.
    pub fn create_collection(&self, ledger: &mut Ledger, args: CreateCollectionArgs) -> (r: Result<
        (),
        EscrowError,
    >)
        requires
            old(ledger).wf(),
        ensures
            final(ledger).wf(),
            match self.created(old(ledger)@, args@) {
                Ok(s) => r is Ok && final(ledger)@ == s,
                Err(e) => r == Err::<(), EscrowError>(e) && final(ledger)@ == old(ledger)@,
            },
    {
        let authority = match self.update_authority {
            Some(authority) => authority,
            None => self.payer,
        };
        let metadata = Metadata { name: args.name, uri: args.uri, plugins: args.plugins };
        if ledger.registry.create_collection(self.collection, authority, metadata) {
            Ok(())
        } else {
            Err(EscrowError::CollaboratorRejection)
        }
    }
}

} // verus!
